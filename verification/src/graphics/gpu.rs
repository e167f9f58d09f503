//! The device core: it keeps the surface configuration and decides how a
//! frame is acquired.
//!
//! Acquiring a frame alternates requests to the surface with decisions on
//! what it answered. The requests are the driver's; the decisions are made
//! here, one answer at a time, within a fixed budget of two requests and one
//! reconfiguration.

use vstd::prelude::*;
use crate::graphics::render_encoder::RenderEncoder;
use crate::graphics::render_pass::PassCommand;
use crate::graphics::render_target::{frame_of, FrameView, SurfaceRenderTarget};
use crate::graphics::surface_config::{
    clamp_extent,
    default_config,
    preferred_format,
    SurfaceConfig,
    SurfaceConfigView,
};

verus! {

/// Where the program runs.
#[derive(Clone, Copy, Debug, PartialEq, Eq, Structural)]
pub enum Platform {
    /// On a native window system.
    Native,
    /// In a browser.
    Browser,
}

/// The GPU backends among which the instance is chosen.
#[derive(Clone, Copy, Debug, PartialEq, Eq, Structural)]
pub enum BackendSet {
    /// The first-class backends of a native platform.
    Primary,
    /// The one backend that every browser has.
    Gl,
}

/// The limits that the device is asked for.
#[derive(Clone, Copy, Debug, PartialEq, Eq, Structural)]
pub enum LimitProfile {
    /// The default limits of a native device.
    NativeDefault,
    /// The reduced limits that are safe to ask of a browser.
    WebSafe,
}

/// What is asked for when the device is negotiated.
#[derive(Clone, Copy, Debug, PartialEq, Eq, Structural)]
pub struct DeviceRequest {
    pub backends: BackendSet,
    pub limits: LimitProfile,
}

/// The most that a platform allows to ask for: the primary backends and the
/// default limits on a native platform, the one browser backend and the
/// web-safe limits in a browser.
pub open spec fn device_request_for(platform: Platform) -> DeviceRequest {
    match platform {
        Platform::Native => DeviceRequest {
            backends: BackendSet::Primary,
            limits: LimitProfile::NativeDefault,
        },
        Platform::Browser => DeviceRequest { backends: BackendSet::Gl, limits: LimitProfile::WebSafe },
    }
}

/// What the surface answers to one request for its next image. `I` is the
/// image that comes with a successful answer.
#[derive(Debug)]
pub enum AcquireOutcome<I> {
    /// The image is there.
    Acquired(I),
    /// The image was not ready in time.
    Timeout,
    /// No memory is left for a new image.
    OutOfMemory,
    /// The surface was lost and has to be configured again.
    Lost,
    /// The surface has changed and has to be configured again.
    Outdated,
}

/// Why no frame was acquired.
#[derive(Clone, Copy, Debug, PartialEq, Eq, Structural)]
pub enum FrameError {
    /// This frame is skipped; the render loop goes on.
    Transient,
    /// The render loop has to end.
    Fatal,
}

/// Where one acquisition stands: which request the next answer belongs to.
#[derive(Clone, Copy, Debug, PartialEq, Eq, Structural)]
pub enum AcquirePhase {
    /// The first request of the frame.
    FirstRequest,
    /// The one retry after a timeout.
    RetryAfterTimeout,
    /// The one retry after the surface was configured again.
    RetryAfterReconfigure,
}

/// What follows from one answer of the surface.
pub enum Decision {
    /// The frame is acquired.
    Deliver,
    /// The surface is asked once more.
    Retry,
    /// The surface is configured again and then asked once more.
    Reconfigure,
    /// The acquisition has failed.
    Fail(FrameError),
}

/// The acquisition policy. An image is always taken. On the first request a
/// timeout is retried, a lost or outdated surface is configured again and
/// retried, and a lack of memory is fatal at once. A retry that brings no
/// image ends the acquisition: as a transient failure after a timeout, as a
/// fatal one after a reconfiguration.
pub open spec fn decide<I>(phase: AcquirePhase, outcome: AcquireOutcome<I>) -> Decision {
    match outcome {
        AcquireOutcome::Acquired(_) => Decision::Deliver,
        _ => match phase {
            AcquirePhase::FirstRequest => match outcome {
                AcquireOutcome::Timeout => Decision::Retry,
                AcquireOutcome::OutOfMemory => Decision::Fail(FrameError::Fatal),
                _ => Decision::Reconfigure,
            },
            AcquirePhase::RetryAfterTimeout => Decision::Fail(FrameError::Transient),
            AcquirePhase::RetryAfterReconfigure => Decision::Fail(FrameError::Fatal),
        },
    }
}

/// The mathematical content of a [`Gpu`].
pub struct GpuView {
    pub surface_config: SurfaceConfigView,
}

impl GpuView {
    /// The surface configuration is well formed: no dimension is zero.
    pub open spec fn wf(self) -> bool {
        self.surface_config.wf()
    }

    /// The same device core after a resize to `width` by `height`.
    pub open spec fn resized(self, width: nat, height: nat) -> GpuView {
        GpuView { surface_config: self.surface_config.resized(width, height) }
    }
}

/// How an acquisition went: how it ended, if it has, how many requests were
/// answered, and how many times the surface was configured again.
pub struct AcquireTrace<I> {
    pub result: Option<Result<FrameView<I>, FrameError>>,
    pub requests: nat,
    pub reconfigurations: nat,
}

impl<I> AcquireTrace<I> {
    /// The requests made after the first one.
    pub open spec fn retries(self) -> nat {
        if self.requests == 0 {
            0
        } else {
            (self.requests - 1) as nat
        }
    }
}

/// The frame that an answer of the surface delivers, if it delivers one: the
/// image that came with the answer, with the extent and format of the
/// surface configuration.
pub open spec fn delivered_frame<I>(gpu: GpuView, outcome: AcquireOutcome<I>) -> Option<
    FrameView<I>,
> {
    match outcome {
        AcquireOutcome::Acquired(image) => Some(frame_of(gpu.surface_config, image)),
        _ => None,
    }
}

/// The acquisition on `gpu` that stands in `phase` and receives `outcomes`
/// as the answers to its requests, in order. Answers past its end are never
/// asked for.
pub open spec fn acquire_from<I>(
    gpu: GpuView,
    phase: AcquirePhase,
    outcomes: Seq<AcquireOutcome<I>>,
) -> AcquireTrace<I>
    decreases outcomes.len(),
{
    if outcomes.len() == 0 {
        AcquireTrace { result: None, requests: 0, reconfigurations: 0 }
    } else {
        match decide(phase, outcomes[0]) {
            Decision::Deliver => AcquireTrace {
                result: Some(Ok(frame_of(gpu.surface_config, outcomes[0]->Acquired_0))),
                requests: 1,
                reconfigurations: 0,
            },
            Decision::Fail(error) => AcquireTrace {
                result: Some(Err(error)),
                requests: 1,
                reconfigurations: 0,
            },
            Decision::Retry => {
                let rest = acquire_from(
                    gpu,
                    AcquirePhase::RetryAfterTimeout,
                    outcomes.drop_first(),
                );
                AcquireTrace { requests: rest.requests + 1, ..rest }
            },
            Decision::Reconfigure => {
                let rest = acquire_from(
                    gpu,
                    AcquirePhase::RetryAfterReconfigure,
                    outcomes.drop_first(),
                );
                AcquireTrace {
                    requests: rest.requests + 1,
                    reconfigurations: rest.reconfigurations + 1,
                    ..rest
                }
            },
        }
    }
}

/// A whole acquisition on `gpu`, from its first request.
pub open spec fn acquire<I>(gpu: GpuView, outcomes: Seq<AcquireOutcome<I>>) -> AcquireTrace<I> {
    acquire_from(gpu, AcquirePhase::FirstRequest, outcomes)
}

/// What [`Gpu::start_frame`] returns, as a result over views.
pub open spec fn frame_result<I>(result: Result<SurfaceRenderTarget<I>, FrameError>) -> Result<
    FrameView<I>,
    FrameError,
> {
    match result {
        Ok(target) => Ok(target@),
        Err(error) => Err(error),
    }
}

/// `result` is how the acquisition on `gpu` ends when the surface answers
/// `outcomes`, and the acquisition asks for every one of these answers.
pub open spec fn acquisition_ends<I>(
    gpu: GpuView,
    outcomes: Seq<AcquireOutcome<I>>,
    result: Result<FrameView<I>, FrameError>,
) -> bool {
    &&& acquire(gpu, outcomes).requests == outcomes.len()
    &&& acquire(gpu, outcomes).result == Some(result)
}

/// The device core. It holds the surface configuration; the device, the
/// queue and the surface themselves are the driver's.
#[derive(Debug)]
pub struct Gpu {
    surface_config: SurfaceConfig,
}

impl View for Gpu {
    type V = GpuView;

    closed spec fn view(&self) -> GpuView {
        GpuView { surface_config: self.surface_config@ }
    }
}

/// One acquisition in progress. It borrows the device core, so the surface
/// cannot be resized before the acquisition has ended, and it is used up by
/// each answer, so no answer is decided on twice.
#[derive(Debug)]
pub struct FrameAcquisition<'a> {
    gpu: &'a Gpu,
    phase: AcquirePhase,
}

/// What the driver does after an answer of the surface.
#[derive(Debug)]
pub enum AcquireStep<'a, I> {
    /// The frame is acquired: here is its render target.
    Deliver(SurfaceRenderTarget<I>),
    /// Ask the surface again and report the answer to the acquisition.
    Retry(FrameAcquisition<'a>),
    /// Configure the surface with this configuration, then ask it again and
    /// report the answer to the acquisition.
    Reconfigure(SurfaceConfig, FrameAcquisition<'a>),
    /// No frame this time.
    Fail(FrameError),
}

impl Gpu {
    /// What to ask for when the device is negotiated on `platform`, as
    /// [`device_request_for`] says.
    pub fn device_request(platform: Platform) -> (request: DeviceRequest)
        ensures
            request == device_request_for(platform),
    {
        match platform {
            Platform::Native => DeviceRequest {
                backends: BackendSet::Primary,
                limits: LimitProfile::NativeDefault,
            },
            Platform::Browser => DeviceRequest {
                backends: BackendSet::Gl,
                limits: LimitProfile::WebSafe,
            },
        }
    }

    /// The device core for a surface that reports `formats`, `present_modes`
    /// and `alpha_modes`, in a window of `width` by `height` pixels. The
    /// surface is to be configured with [`Gpu::surface_config`] before the
    /// first frame. There is no core for a surface that cannot present.
    pub fn new(
        formats: &[wgpu::TextureFormat],
        present_modes: &[wgpu::PresentMode],
        alpha_modes: &[wgpu::CompositeAlphaMode],
        width: u32,
        height: u32,
    ) -> (gpu: Option<Gpu>)
        ensures
            gpu is Some <==> formats@.len() > 0 && present_modes@.len() > 0 && alpha_modes@.len()
                > 0,
            gpu matches Some(g) ==> g@.surface_config == default_config(
                formats@,
                present_modes@,
                alpha_modes@,
                width,
                height,
            ) && g@.wf(),
    {
        match Gpu::surface_default_config(formats, present_modes, alpha_modes, width, height) {
            None => None,
            Some(surface_config) => Some(Gpu { surface_config }),
        }
    }

    /// Sets the size of the surface and returns the full configuration, with
    /// which the surface is to be configured again. Format, presentation
    /// mode, alpha mode and queue depth stay as they were.
    pub fn resize(&mut self, width: u32, height: u32) -> (config: SurfaceConfig)
        requires
            width >= 1,
            height >= 1,
        ensures
            final(self)@ == old(self)@.resized(width as nat, height as nat),
            final(self)@.wf(),
            config@ == final(self)@.surface_config,
    {
        self.surface_config.resize(width, height);
        self.surface_config
    }

    /// Clamps a window size for use as a surface size: a dimension of zero
    /// becomes one pixel, any other is kept.
    pub fn surface_size(width: u32, height: u32) -> (size: (u32, u32))
        ensures
            size.0 == clamp_extent(width),
            size.1 == clamp_extent(height),
            size.0 >= 1,
            size.1 >= 1,
    {
        let width: u32 = if width < 1 {
            1
        } else {
            width
        };
        let height: u32 = if height < 1 {
            1
        } else {
            height
        };
        (width, height)
    }

    /// The default configuration for a surface that reports `formats`,
    /// `present_modes` and `alpha_modes`, in a window of `width` by `height`
    /// pixels: the first sRGB format, or the first format where none is
    /// sRGB; the clamped window size; the first presentation mode and the
    /// first alpha mode. There is none where one of the lists is empty.
    pub fn surface_default_config(
        formats: &[wgpu::TextureFormat],
        present_modes: &[wgpu::PresentMode],
        alpha_modes: &[wgpu::CompositeAlphaMode],
        width: u32,
        height: u32,
    ) -> (config: Option<SurfaceConfig>)
        ensures
            config is Some <==> formats@.len() > 0 && present_modes@.len() > 0 && alpha_modes@.len()
                > 0,
            config matches Some(c) ==> c@ == default_config(
                formats@,
                present_modes@,
                alpha_modes@,
                width,
                height,
            ) && c@.wf(),
    {
        if present_modes.len() == 0 || alpha_modes.len() == 0 {
            return None;
        }
        match preferred_format(formats) {
            None => None,
            Some(format) => {
                let (width, height) = Gpu::surface_size(width, height);
                Some(SurfaceConfig::new(format, width, height, present_modes[0], alpha_modes[0]))
            },
        }
    }

    /// The configuration that the surface is to have.
    pub fn surface_config(&self) -> (config: SurfaceConfig)
        ensures
            config@ == self@.surface_config,
            config@.wf(),
    {
        proof {
            use_type_invariant(&self.surface_config);
        }
        self.surface_config
    }

    /// Begins the acquisition of a frame, for a driver that makes the
    /// requests itself: it asks the surface for its next image and reports
    /// each answer with [`FrameAcquisition::advance`].
    pub fn acquisition(&self) -> (acquisition: FrameAcquisition<'_>)
        ensures
            acquisition.phase() == AcquirePhase::FirstRequest,
            acquisition.gpu() == *self,
    {
        FrameAcquisition { gpu: self, phase: AcquirePhase::FirstRequest }
    }

    /// Acquires the frame to draw into. `request` asks the surface for its
    /// next image; `configure` configures the surface. The surface is asked
    /// once or twice and configured again at most once, as the policy
    /// [`decide`] says: the result is the one that [`acquire`] gives for the
    /// answers that `request` returned, and no answer is asked for beyond
    /// them. The core stays borrowed throughout, so no resize comes between
    /// a request and its retry.
    pub fn start_frame<I, R, C>(&self, request: R, configure: C) -> (result: Result<
        SurfaceRenderTarget<I>,
        FrameError,
    >) where R: Fn() -> AcquireOutcome<I>, C: Fn(SurfaceConfig) -> ()
        requires
            call_requires(request, ()),
            forall|config: SurfaceConfig|
                config@ == self@.surface_config ==> call_requires(configure, (config,)),
        ensures
            exists|outcomes: Seq<AcquireOutcome<I>>|
                {
                    &&& forall|i: int|
                        0 <= i < outcomes.len() ==> call_ensures(
                            request,
                            (),
                            #[trigger] outcomes[i],
                        )
                    &&& #[trigger] acquisition_ends(self@, outcomes, frame_result(result))
                },
            result matches Ok(target) ==> target@.width == self@.surface_config.width
                && target@.height == self@.surface_config.height && target@.format
                == self@.surface_config.format,
    {
        let first = request();
        let ghost first_answer = first;
        match self.acquisition().advance(first) {
            AcquireStep::Deliver(target) => {
                proof {
                    let outcomes = seq![first_answer];
                    reveal_with_fuel(acquire_from, 2);
                    assert(acquisition_ends(self@, outcomes, Ok(target@)));
                }
                Ok(target)
            },
            AcquireStep::Fail(error) => {
                proof {
                    let outcomes = seq![first_answer];
                    reveal_with_fuel(acquire_from, 2);
                    assert(acquisition_ends(self@, outcomes, Err(error)));
                }
                Err(error)
            },
            AcquireStep::Retry(retry) => {
                let second = request();
                let ghost second_answer = second;
                let result = retry.conclude(second);
                proof {
                    let outcomes = seq![first_answer, second_answer];
                    reveal_with_fuel(acquire_from, 3);
                    assert(outcomes.drop_first() =~= seq![second_answer]);
                    assert(acquisition_ends(self@, outcomes, frame_result(result)));
                }
                result
            },
            AcquireStep::Reconfigure(config, retry) => {
                configure(config);
                let second = request();
                let ghost second_answer = second;
                let result = retry.conclude(second);
                proof {
                    let outcomes = seq![first_answer, second_answer];
                    reveal_with_fuel(acquire_from, 3);
                    assert(outcomes.drop_first() =~= seq![second_answer]);
                    assert(acquisition_ends(self@, outcomes, frame_result(result)));
                }
                result
            },
        }
    }

    /// Opens a command scope on this device core, with nothing recorded.
    pub fn render_encoder<I>(&self) -> (encoder: RenderEncoder<'_, I>)
        ensures
            encoder.gpu() == *self,
            encoder.passes() == Seq::<PassCommand<'_, I>>::empty(),
    {
        RenderEncoder::new(self)
    }
}

impl<'a> FrameAcquisition<'a> {
    /// The request that the next answer belongs to.
    pub closed spec fn phase(self) -> AcquirePhase {
        self.phase
    }

    /// The device core that the acquisition borrows.
    pub closed spec fn gpu(self) -> Gpu {
        *self.gpu
    }

    /// Decides on one answer of the surface, as [`decide`] says. A delivered
    /// target owns the image that came with the answer and has the extent and
    /// format of the surface configuration; a reconfiguration uses the stored
    /// configuration as it is.
    pub fn advance<I>(self, outcome: AcquireOutcome<I>) -> (step: AcquireStep<'a, I>)
        ensures
            match decide(self.phase(), outcome) {
                Decision::Deliver => {
                    &&& step matches AcquireStep::Deliver(target)
                    &&& delivered_frame(self.gpu()@, outcome) == Some(target@)
                    &&& target@.width >= 1
                    &&& target@.height >= 1
                },
                Decision::Retry => {
                    &&& step matches AcquireStep::Retry(next)
                    &&& next.phase() == AcquirePhase::RetryAfterTimeout
                    &&& next.gpu() == self.gpu()
                },
                Decision::Reconfigure => {
                    &&& step matches AcquireStep::Reconfigure(config, next)
                    &&& config@ == self.gpu()@.surface_config
                    &&& config@.wf()
                    &&& next.phase() == AcquirePhase::RetryAfterReconfigure
                    &&& next.gpu() == self.gpu()
                },
                Decision::Fail(error) => step matches AcquireStep::Fail(e) && e == error,
            },
    {
        let config = self.gpu.surface_config();
        match outcome {
            AcquireOutcome::Acquired(image) => AcquireStep::Deliver(
                SurfaceRenderTarget::new(image, config.width(), config.height(), config.format()),
            ),
            AcquireOutcome::Timeout => match self.phase {
                AcquirePhase::FirstRequest => AcquireStep::Retry(
                    FrameAcquisition { gpu: self.gpu, phase: AcquirePhase::RetryAfterTimeout },
                ),
                AcquirePhase::RetryAfterTimeout => AcquireStep::Fail(FrameError::Transient),
                AcquirePhase::RetryAfterReconfigure => AcquireStep::Fail(FrameError::Fatal),
            },
            AcquireOutcome::OutOfMemory => match self.phase {
                AcquirePhase::RetryAfterTimeout => AcquireStep::Fail(FrameError::Transient),
                _ => AcquireStep::Fail(FrameError::Fatal),
            },
            AcquireOutcome::Lost | AcquireOutcome::Outdated => match self.phase {
                AcquirePhase::FirstRequest => AcquireStep::Reconfigure(
                    config,
                    FrameAcquisition { gpu: self.gpu, phase: AcquirePhase::RetryAfterReconfigure },
                ),
                AcquirePhase::RetryAfterTimeout => AcquireStep::Fail(FrameError::Transient),
                AcquirePhase::RetryAfterReconfigure => AcquireStep::Fail(FrameError::Fatal),
            },
        }
    }

    /// Decides on the answer to a retry, which ends the acquisition either
    /// way: an image is delivered, anything else fails as the retry's cause
    /// has it.
    fn conclude<I>(self, outcome: AcquireOutcome<I>) -> (result: Result<
        SurfaceRenderTarget<I>,
        FrameError,
    >)
        requires
            self.phase() != AcquirePhase::FirstRequest,
        ensures
            match decide(self.phase(), outcome) {
                Decision::Deliver => {
                    &&& result matches Ok(target)
                    &&& delivered_frame(self.gpu()@, outcome) == Some(target@)
                },
                Decision::Fail(error) => result matches Err(e) && e == error,
                _ => false,
            },
    {
        match self.advance(outcome) {
            AcquireStep::Deliver(target) => Ok(target),
            AcquireStep::Fail(error) => Err(error),
            AcquireStep::Retry(_) => Err(FrameError::Fatal),
            AcquireStep::Reconfigure(_, _) => Err(FrameError::Fatal),
        }
    }
}

/// An acquisition is over after two answers at the latest: it never makes
/// more than two requests, nor more than one retry, nor configures the
/// surface more than once, whatever the surface answers.
pub proof fn lemma_acquire_budget<I>(gpu: GpuView, outcomes: Seq<AcquireOutcome<I>>)
    ensures
        acquire(gpu, outcomes).requests <= 2,
        acquire(gpu, outcomes).retries() <= 1,
        acquire(gpu, outcomes).reconfigurations <= 1,
        acquire(gpu, outcomes).requests <= outcomes.len(),
        outcomes.len() >= 2 ==> acquire(gpu, outcomes).result is Some,
{
    reveal_with_fuel(acquire_from, 3);
}

/// A frame is acquired exactly where the first answer brings an image, or
/// the first answer is a timeout, a lost or an outdated surface and the
/// second one brings an image. The frame holds the image of that answer and
/// has the extent and format of the surface configuration.
pub proof fn lemma_acquire_succeeds<I>(gpu: GpuView, outcomes: Seq<AcquireOutcome<I>>)
    requires
        outcomes.len() >= 2,
    ensures
        acquire(gpu, outcomes).result == Some(
            if outcomes[0] is Acquired {
                Ok::<FrameView<I>, FrameError>(
                    frame_of(gpu.surface_config, outcomes[0]->Acquired_0),
                )
            } else if !(outcomes[0] is OutOfMemory) && outcomes[1] is Acquired {
                Ok(frame_of(gpu.surface_config, outcomes[1]->Acquired_0))
            } else if outcomes[0] is Timeout {
                Err(FrameError::Transient)
            } else {
                Err(FrameError::Fatal)
            },
        ),
{
    reveal_with_fuel(acquire_from, 3);
}

/// A first answer that brings the image ends the acquisition with one
/// request, no retry and no reconfiguration.
pub proof fn lemma_acquire_at_once<I>(gpu: GpuView, outcomes: Seq<AcquireOutcome<I>>)
    requires
        outcomes.len() >= 1,
        outcomes[0] is Acquired,
    ensures
        acquire(gpu, outcomes) == (AcquireTrace {
            result: Some(Ok(frame_of(gpu.surface_config, outcomes[0]->Acquired_0))),
            requests: 1,
            reconfigurations: 0,
        }),
        acquire(gpu, outcomes).retries() == 0,
{
    reveal_with_fuel(acquire_from, 2);
}

/// After a lost or outdated surface the surface is configured again exactly
/// once and asked exactly once more. An image on that retry is delivered;
/// anything else is fatal.
pub proof fn lemma_acquire_after_loss<I>(gpu: GpuView, outcomes: Seq<AcquireOutcome<I>>)
    requires
        outcomes.len() >= 2,
        outcomes[0] is Lost || outcomes[0] is Outdated,
    ensures
        acquire(gpu, outcomes).reconfigurations == 1,
        acquire(gpu, outcomes).requests == 2,
        acquire(gpu, outcomes).retries() == 1,
        acquire(gpu, outcomes).result == Some(
            if outcomes[1] is Acquired {
                Ok::<FrameView<I>, FrameError>(
                    frame_of(gpu.surface_config, outcomes[1]->Acquired_0),
                )
            } else {
                Err(FrameError::Fatal)
            },
        ),
{
    reveal_with_fuel(acquire_from, 3);
}

/// After a timeout the surface is asked exactly once more, without being
/// configured again. An image on that retry is delivered; anything else is a
/// transient failure.
pub proof fn lemma_acquire_after_timeout<I>(gpu: GpuView, outcomes: Seq<AcquireOutcome<I>>)
    requires
        outcomes.len() >= 2,
        outcomes[0] is Timeout,
    ensures
        acquire(gpu, outcomes).reconfigurations == 0,
        acquire(gpu, outcomes).requests == 2,
        acquire(gpu, outcomes).retries() == 1,
        acquire(gpu, outcomes).result == Some(
            if outcomes[1] is Acquired {
                Ok::<FrameView<I>, FrameError>(
                    frame_of(gpu.surface_config, outcomes[1]->Acquired_0),
                )
            } else {
                Err(FrameError::Transient)
            },
        ),
{
    reveal_with_fuel(acquire_from, 3);
}

/// A lack of memory on the first request is fatal at once: one request, no
/// retry, no reconfiguration.
pub proof fn lemma_acquire_out_of_memory<I>(gpu: GpuView, outcomes: Seq<AcquireOutcome<I>>)
    requires
        outcomes.len() >= 1,
        outcomes[0] is OutOfMemory,
    ensures
        acquire(gpu, outcomes) == (AcquireTrace::<I> {
            result: Some(Err(FrameError::Fatal)),
            requests: 1,
            reconfigurations: 0,
        }),
        acquire(gpu, outcomes).retries() == 0,
{
    reveal_with_fuel(acquire_from, 2);
}

/// A frame acquired after a resize has the size that the resize set, and the
/// format that the surface had before: whatever the configuration was,
/// whatever the surface answers, and for every size of at least one pixel
/// each way.
pub proof fn lemma_frame_after_resize<I>(
    gpu: GpuView,
    width: u32,
    height: u32,
    outcomes: Seq<AcquireOutcome<I>>,
)
    requires
        width >= 1,
        height >= 1,
    ensures
        acquire(gpu.resized(width as nat, height as nat), outcomes).result matches Some(Ok(frame))
            ==> {
            &&& frame.width == width
            &&& frame.height == height
            &&& frame.format == gpu.surface_config.format
        },
{
    reveal_with_fuel(acquire_from, 3);
}

/// A resize touches the size and nothing else, and resizing to the size the
/// surface already has changes nothing.
pub proof fn lemma_resize_keeps_modes(gpu: GpuView, width: u32, height: u32)
    ensures
        gpu.resized(width as nat, height as nat).surface_config.format
            == gpu.surface_config.format,
        gpu.resized(width as nat, height as nat).surface_config.present_mode
            == gpu.surface_config.present_mode,
        gpu.resized(width as nat, height as nat).surface_config.alpha_mode
            == gpu.surface_config.alpha_mode,
        gpu.resized(width as nat, height as nat).surface_config.max_queued_frames
            == gpu.surface_config.max_queued_frames,
        gpu.resized(gpu.surface_config.width, gpu.surface_config.height) == gpu,
{
}

/// No zero dimension reaches the configuration or a frame: whatever size a
/// window reports, the default configuration for it is well formed, and so
/// is a well-formed core after a resize to the clamped size; and every frame
/// acquired on a well-formed core has at least one pixel each way.
pub proof fn lemma_extent_never_zero<I>(
    gpu: GpuView,
    formats: Seq<wgpu::TextureFormat>,
    present_modes: Seq<wgpu::PresentMode>,
    alpha_modes: Seq<wgpu::CompositeAlphaMode>,
    width: u32,
    height: u32,
    outcomes: Seq<AcquireOutcome<I>>,
)
    requires
        gpu.wf(),
    ensures
        default_config(formats, present_modes, alpha_modes, width, height).wf(),
        gpu.resized(clamp_extent(width) as nat, clamp_extent(height) as nat).wf(),
        acquire(gpu, outcomes).result matches Some(Ok(frame)) ==> frame.width >= 1 && frame.height
            >= 1,
{
    reveal_with_fuel(acquire_from, 3);
}

} // verus!
