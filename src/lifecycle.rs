use vstd::prelude::*;

use crate::config::{clamp_dimension, SurfaceConfig};
use crate::frame::{is_triangle_frame, triangle_frame, FramePlan};

verus! {

/// The state of the rendering surface. `C` is the GPU context (window,
/// surface, device, queue and render pipeline) as one unit: it is present
/// with its configuration in `Ready`, and absent in every other state, so no
/// partly built context can be observed.
pub enum Lifecycle<C, F> {
    Uninitialized,
    Ready { context: C, config: SurfaceConfig<F> },
    Closing,
}

/// A GPU-side resource released on close.
#[derive(Clone, Copy, Debug, PartialEq, Eq, Structural)]
pub enum Resource {
    Pipeline,
    Queue,
    Device,
    Surface,
    Config,
    Window,
}

/// What closing asks of the program: wait for the device to finish, release
/// the resources in the listed order, then end the event loop.
#[derive(Debug)]
pub struct Shutdown {
    pub wait_idle: bool,
    pub release: Vec<Resource>,
    pub exit: bool,
}

/// The position of a resource in the teardown: each resource is released
/// before the ones that it depends on.
pub open spec fn teardown_rank(r: Resource) -> nat {
    match r {
        Resource::Pipeline => 0,
        Resource::Queue => 1,
        Resource::Device => 2,
        Resource::Surface => 3,
        Resource::Config => 4,
        Resource::Window => 5,
    }
}

/// The order in which a ready context is released.
pub open spec fn teardown_order() -> Seq<Resource> {
    seq![
        Resource::Pipeline,
        Resource::Queue,
        Resource::Device,
        Resource::Surface,
        Resource::Config,
        Resource::Window,
    ]
}

/// A resize applies to a ready surface each requested dimension raised to at
/// least one pixel, so a zero size never reaches the reconfiguration; the
/// context and the rest of the configuration stay as they were.
pub proof fn lemma_resize_clamps<C, F>(l: Lifecycle<C, F>, width: u32, height: u32)
    requires
        l is Ready,
    ensures
        l.resized(width, height) is Ready,
        l.resized(width, height)->context == l->context,
        l.resized(width, height)->config.width as int == if width >= 1 { width as int } else { 1 },
        l.resized(width, height)->config.height as int == if height >= 1 { height as int } else { 1 },
        l.resized(width, height)->config.wf(),
        l.resized(width, height)->config.format == l->config.format,
        l.resized(width, height)->config.present_mode == l->config.present_mode,
        l.resized(width, height)->config.alpha_mode == l->config.alpha_mode,
        l.resized(width, height)->config.desired_maximum_frame_latency
            == l->config.desired_maximum_frame_latency,
{
}

/// The context and its configuration are present together, exactly when the
/// surface is ready, and every transition keeps a well-formed state
/// well-formed: no state holds part of a context.
pub proof fn lemma_context_all_or_nothing<C, F>(
    l: Lifecycle<C, F>,
    context: C,
    config: SurfaceConfig<F>,
    width: u32,
    height: u32,
)
    requires
        l.wf(),
    ensures
        l.context_of() is Some <==> l is Ready,
        l.config_of() is Some <==> l is Ready,
        l.activated(context, config).wf(),
        !(l is Closing) ==> l.activated(context, config).context_of() == Some(context),
        l is Closing ==> l.activated(context, config).context_of() is None,
        l.resized(width, height).wf(),
        l.resized(width, height).context_of() == l.context_of(),
{
}

/// A ready context is released pipeline first, then queue, device, surface,
/// configuration and window, each exactly once; with no context nothing is
/// released.
pub proof fn lemma_teardown_order<C, F>(l: Lifecycle<C, F>)
    ensures
        l is Ready ==> l.release_order().len() == 6,
        !(l is Ready) ==> l.release_order().len() == 0,
        forall|i: int|
            0 <= i < l.release_order().len() ==> teardown_rank(#[trigger] l.release_order()[i])
                == i,
        forall|i: int, j: int|
            0 <= i < j < l.release_order().len() ==> teardown_rank(
                #[trigger] l.release_order()[i],
            ) < teardown_rank(#[trigger] l.release_order()[j]),
{
}

impl<C, F> Lifecycle<C, F> {
    /// The context, present exactly when the surface is ready.
    pub open spec fn context_of(self) -> Option<C> {
        match self {
            Lifecycle::Ready { context, .. } => Some(context),
            _ => None,
        }
    }

    /// The configuration, present exactly when the surface is ready.
    pub open spec fn config_of(self) -> Option<SurfaceConfig<F>> {
        match self {
            Lifecycle::Ready { config, .. } => Some(config),
            _ => None,
        }
    }

    /// A ready surface has a configuration of at least one pixel each way.
    pub open spec fn wf(self) -> bool {
        self is Ready ==> self->config.wf()
    }

    /// The state after activation with a freshly built context: ready with
    /// it, unless the surface is closing.
    pub open spec fn activated(self, context: C, config: SurfaceConfig<F>) -> Self {
        match self {
            Lifecycle::Closing => Lifecycle::Closing,
            _ => Lifecycle::Ready {
                context,
                config: config.with_size(config.width, config.height),
            },
        }
    }

    /// The state after a resize to `width` x `height`: a ready surface takes
    /// the clamped size, any other state stays as it is.
    pub open spec fn resized(self, width: u32, height: u32) -> Self {
        match self {
            Lifecycle::Ready { context, config } => Lifecycle::Ready {
                context,
                config: config.with_size(width, height),
            },
            _ => self,
        }
    }

    /// The release order owed on close from this state.
    pub open spec fn release_order(self) -> Seq<Resource> {
        if self is Ready {
            teardown_order()
        } else {
            Seq::empty()
        }
    }

    /// Activation: installs a freshly built context with its configuration,
    /// each dimension clamped to at least one pixel, replacing any earlier
    /// one. A closing surface is not activated again; the context is then
    /// dropped. Returns whether the context was installed.
    pub fn activate(&mut self, context: C, config: SurfaceConfig<F>) -> (installed: bool)
        ensures
            *final(self) == old(self).activated(context, config),
            installed == !(*old(self) is Closing),
            final(self).wf(),
    {
        if self.is_closing() {
            return false;
        }
        let width = clamp_dimension(config.width);
        let height = clamp_dimension(config.height);
        *self = Lifecycle::Ready { context, config: SurfaceConfig { width, height, ..config } };
        true
    }

    /// A resize to `width` x `height`. A ready surface takes each dimension
    /// clamped to at least one pixel, and the result is whether the surface
    /// must now be reconfigured with that configuration; in any other state
    /// nothing changes and nothing is to be done.
    pub fn resize(&mut self, width: u32, height: u32) -> (reconfigure: bool)
        ensures
            *final(self) == old(self).resized(width, height),
            reconfigure == (*old(self) is Ready),
            old(self).wf() ==> final(self).wf(),
    {
        match self {
            Lifecycle::Ready { config, .. } => {
                config.width = clamp_dimension(width);
                config.height = clamp_dimension(height);
                true
            },
            _ => false,
        }
    }

    /// A redraw, once the program has tried to acquire the next presentable
    /// frame. With a ready surface and an acquired frame, the triangle frame
    /// is to be recorded, submitted and presented; otherwise nothing is
    /// submitted and the state is left as it is.
    pub fn redraw(&self, frame_acquired: bool) -> (r: Option<FramePlan>)
        ensures
            r is Some <==> self is Ready && frame_acquired,
            r matches Some(p) ==> is_triangle_frame(p),
    {
        if self.is_ready() && frame_acquired {
            Some(triangle_frame())
        } else {
            None
        }
    }

    /// Close: the surface becomes closing for good. The context, if there is
    /// one, is handed back with the order in which to release its parts; the
    /// event loop is to end in every case.
    pub fn close(&mut self) -> (r: (Option<C>, Shutdown))
        ensures
            *final(self) is Closing,
            r.0 == old(self).context_of(),
            r.1.wait_idle == (*old(self) is Ready),
            r.1.release@ == old(self).release_order(),
            r.1.exit,
    {
        let mut previous = Lifecycle::Closing;
        core::mem::swap(self, &mut previous);
        match previous {
            Lifecycle::Ready { context, .. } => {
                let mut release: Vec<Resource> = Vec::new();
                release.push(Resource::Pipeline);
                release.push(Resource::Queue);
                release.push(Resource::Device);
                release.push(Resource::Surface);
                release.push(Resource::Config);
                release.push(Resource::Window);
                proof {
                    assert(release@ =~= teardown_order());
                }
                (Some(context), Shutdown { wait_idle: true, release, exit: true })
            },
            _ => {
                let release: Vec<Resource> = Vec::new();
                proof {
                    assert(release@ =~= Seq::<Resource>::empty());
                }
                (None, Shutdown { wait_idle: false, release, exit: true })
            },
        }
    }

    /// A surface that has not been activated yet.
    pub fn new() -> (r: Self)
        ensures
            r is Uninitialized,
            r.wf(),
    {
        Lifecycle::Uninitialized
    }

    /// Whether a context is present.
    pub fn is_ready(&self) -> (r: bool)
        ensures
            r == self is Ready,
    {
        match self {
            Lifecycle::Ready { .. } => true,
            _ => false,
        }
    }

    /// Whether close has been requested.
    pub fn is_closing(&self) -> (r: bool)
        ensures
            r == self is Closing,
    {
        match self {
            Lifecycle::Closing => true,
            _ => false,
        }
    }

    /// The GPU context, where the surface is ready.
    pub fn context(&self) -> (r: Option<&C>)
        ensures
            r is Some <==> self is Ready,
            r matches Some(c) ==> *c == self->context,
    {
        match self {
            Lifecycle::Ready { context, .. } => Some(context),
            _ => None,
        }
    }

    /// The applied configuration, where the surface is ready.
    pub fn config(&self) -> (r: Option<&SurfaceConfig<F>>)
        ensures
            r is Some <==> self is Ready,
            r matches Some(c) ==> *c == self->config,
    {
        match self {
            Lifecycle::Ready { config, .. } => Some(config),
            _ => None,
        }
    }
}

} // verus!
