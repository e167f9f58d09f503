use std::cell::{Cell, RefCell};
use std::collections::VecDeque;

use tutorial_window::graphics::{
    AcquireOutcome, AcquireStep, FrameError, Gpu, SurfaceConfig, SurfaceRenderTarget,
};
use wgpu::{CompositeAlphaMode, PresentMode, TextureFormat};

/// A surface that answers from a script and keeps count of what it was asked.
struct ScriptedSurface {
    answers: RefCell<VecDeque<AcquireOutcome<u32>>>,
    requests: Cell<u32>,
    configured: RefCell<Vec<(u32, u32)>>,
}

impl ScriptedSurface {
    fn new(answers: Vec<AcquireOutcome<u32>>) -> Self {
        ScriptedSurface {
            answers: RefCell::new(VecDeque::from(answers)),
            requests: Cell::new(0),
            configured: RefCell::new(Vec::new()),
        }
    }

    fn request(&self) -> AcquireOutcome<u32> {
        self.requests.set(self.requests.get() + 1);
        self.answers.borrow_mut().pop_front().expect("the script has an answer left")
    }

    fn configure(&self, config: SurfaceConfig) {
        self.configured.borrow_mut().push((config.width(), config.height()));
    }

    fn retries(&self) -> u32 {
        self.requests.get().saturating_sub(1)
    }

    fn reconfigurations(&self) -> usize {
        self.configured.borrow().len()
    }
}

fn acquire_gpu() -> Gpu {
    Gpu::new(
        &[TextureFormat::Bgra8UnormSrgb],
        &[PresentMode::Fifo],
        &[CompositeAlphaMode::Opaque],
        800,
        600,
    )
    .expect("the surface can present")
}

fn run(
    gpu: &Gpu,
    surface: &ScriptedSurface,
) -> Result<SurfaceRenderTarget<u32>, FrameError> {
    gpu.start_frame(|| surface.request(), |config| surface.configure(config))
}

#[test]
fn first_answer_with_an_image_is_delivered_at_once() {
    let gpu = acquire_gpu();
    let surface = ScriptedSurface::new(vec![AcquireOutcome::Acquired(1), AcquireOutcome::Lost]);
    let target = run(&gpu, &surface).expect("the image was there");
    assert_eq!(surface.requests.get(), 1);
    assert_eq!(surface.retries(), 0);
    assert_eq!(surface.reconfigurations(), 0);
    assert_eq!(*target.image(), 1);
    assert_eq!((target.width(), target.height()), (800, 600));
    assert_eq!(target.format(), TextureFormat::Bgra8UnormSrgb);
}

#[test]
fn lost_surface_is_reconfigured_once_before_the_retry() {
    let gpu = acquire_gpu();
    let surface = ScriptedSurface::new(vec![AcquireOutcome::Lost, AcquireOutcome::Acquired(2)]);
    let target = run(&gpu, &surface).expect("the retry brought the image");
    assert_eq!(surface.reconfigurations(), 1);
    assert_eq!(*surface.configured.borrow(), vec![(800, 600)]);
    assert_eq!(surface.requests.get(), 2);
    assert_eq!(surface.retries(), 1);
    assert_eq!(*target.image(), 2);
    assert_eq!((target.width(), target.height()), (800, 600));
}

#[test]
fn outdated_surface_is_reconfigured_once_before_the_retry() {
    let gpu = acquire_gpu();
    let surface =
        ScriptedSurface::new(vec![AcquireOutcome::Outdated, AcquireOutcome::Acquired(3)]);
    let target = run(&gpu, &surface).expect("the retry brought the image");
    assert_eq!(surface.reconfigurations(), 1);
    assert_eq!(surface.requests.get(), 2);
    assert_eq!(*target.image(), 3);
}

#[test]
fn two_losses_in_a_row_are_fatal() {
    let gpu = acquire_gpu();
    let surface = ScriptedSurface::new(vec![
        AcquireOutcome::Lost,
        AcquireOutcome::Lost,
        AcquireOutcome::Acquired(4),
    ]);
    let error = run(&gpu, &surface).expect_err("the surface stayed lost");
    assert_eq!(error, FrameError::Fatal);
    assert_eq!(surface.reconfigurations(), 1);
    assert_eq!(surface.requests.get(), 2);
}

#[test]
fn any_failure_after_a_reconfiguration_is_fatal() {
    let gpu = acquire_gpu();
    for first in [0, 1] {
        for second in [0, 1, 2, 3] {
            let cause = if first == 0 { AcquireOutcome::Lost } else { AcquireOutcome::Outdated };
            let answer = match second {
                0 => AcquireOutcome::Timeout,
                1 => AcquireOutcome::OutOfMemory,
                2 => AcquireOutcome::Lost,
                _ => AcquireOutcome::Outdated,
            };
            let surface = ScriptedSurface::new(vec![cause, answer]);
            assert_eq!(run(&gpu, &surface).expect_err("no image came"), FrameError::Fatal);
            assert_eq!(surface.reconfigurations(), 1);
            assert_eq!(surface.requests.get(), 2);
        }
    }
}

#[test]
fn timeout_is_retried_once_without_reconfiguring() {
    let gpu = acquire_gpu();
    let surface =
        ScriptedSurface::new(vec![AcquireOutcome::Timeout, AcquireOutcome::Acquired(5)]);
    let target = run(&gpu, &surface).expect("the retry brought the image");
    assert_eq!(surface.retries(), 1);
    assert_eq!(surface.requests.get(), 2);
    assert_eq!(surface.reconfigurations(), 0);
    assert_eq!(*target.image(), 5);
}

#[test]
fn two_timeouts_in_a_row_are_transient() {
    let gpu = acquire_gpu();
    let surface = ScriptedSurface::new(vec![
        AcquireOutcome::Timeout,
        AcquireOutcome::Timeout,
        AcquireOutcome::Acquired(6),
    ]);
    let error = run(&gpu, &surface).expect_err("the image never came in time");
    assert_eq!(error, FrameError::Transient);
    assert_eq!(surface.retries(), 1);
    assert_eq!(surface.requests.get(), 2);
    assert_eq!(surface.reconfigurations(), 0);
}

#[test]
fn any_failure_after_a_timeout_is_transient() {
    let gpu = acquire_gpu();
    for second in [0, 1, 2, 3] {
        let answer = match second {
            0 => AcquireOutcome::Timeout,
            1 => AcquireOutcome::OutOfMemory,
            2 => AcquireOutcome::Lost,
            _ => AcquireOutcome::Outdated,
        };
        let surface = ScriptedSurface::new(vec![AcquireOutcome::Timeout, answer]);
        assert_eq!(run(&gpu, &surface).expect_err("no image came"), FrameError::Transient);
        assert_eq!(surface.reconfigurations(), 0);
        assert_eq!(surface.requests.get(), 2);
    }
}

#[test]
fn out_of_memory_is_fatal_without_a_retry() {
    let gpu = acquire_gpu();
    let surface =
        ScriptedSurface::new(vec![AcquireOutcome::OutOfMemory, AcquireOutcome::Acquired(7)]);
    let error = run(&gpu, &surface).expect_err("no memory was left");
    assert_eq!(error, FrameError::Fatal);
    assert_eq!(surface.requests.get(), 1);
    assert_eq!(surface.retries(), 0);
    assert_eq!(surface.reconfigurations(), 0);
}

#[test]
fn no_acquisition_asks_more_than_twice() {
    let gpu = acquire_gpu();
    let kinds = 5;
    for first in 0..kinds {
        for second in 0..kinds {
            let answer = |kind: u32| match kind {
                0 => AcquireOutcome::Acquired(9),
                1 => AcquireOutcome::Timeout,
                2 => AcquireOutcome::OutOfMemory,
                3 => AcquireOutcome::Lost,
                _ => AcquireOutcome::Outdated,
            };
            let surface = ScriptedSurface::new(vec![answer(first), answer(second), answer(0)]);
            let _ = run(&gpu, &surface);
            assert!(surface.requests.get() <= 2);
            assert!(surface.reconfigurations() <= 1);
        }
    }
}

#[test]
fn frame_after_resize_has_the_new_size() {
    let mut gpu = acquire_gpu();
    for (width, height) in [(1, 1), (1024, 768), (1, 4096), (u32::MAX, 1)] {
        let config = gpu.resize(width, height);
        assert_eq!((config.width(), config.height()), (width, height));
        let surface = ScriptedSurface::new(vec![AcquireOutcome::Acquired(11)]);
        let target = run(&gpu, &surface).expect("the image was there");
        assert_eq!((target.width(), target.height()), (width, height));
        assert_eq!(target.format(), TextureFormat::Bgra8UnormSrgb);
    }
}

#[test]
fn frame_after_resize_and_recovery_has_the_new_size() {
    let mut gpu = acquire_gpu();
    gpu.resize(320, 200);
    let surface =
        ScriptedSurface::new(vec![AcquireOutcome::Outdated, AcquireOutcome::Acquired(12)]);
    let target = run(&gpu, &surface).expect("the retry brought the image");
    assert_eq!(*surface.configured.borrow(), vec![(320, 200)]);
    assert_eq!((target.width(), target.height()), (320, 200));
}

#[test]
fn finish_hands_over_the_acquired_image() {
    let gpu = acquire_gpu();
    let surface = ScriptedSurface::new(vec![AcquireOutcome::Acquired(42)]);
    let target = run(&gpu, &surface).expect("the image was there");
    assert_eq!(target.finish(), 42);
}

#[test]
fn acquisition_steps_follow_the_policy() {
    let gpu = acquire_gpu();

    match gpu.acquisition().advance(AcquireOutcome::Acquired(1u32)) {
        AcquireStep::Deliver(target) => assert_eq!(target.finish(), 1),
        _ => panic!("an image is delivered"),
    }

    match gpu.acquisition().advance(AcquireOutcome::<u32>::OutOfMemory) {
        AcquireStep::Fail(error) => assert_eq!(error, FrameError::Fatal),
        _ => panic!("a lack of memory is fatal"),
    }

    let retry = match gpu.acquisition().advance(AcquireOutcome::<u32>::Timeout) {
        AcquireStep::Retry(retry) => retry,
        _ => panic!("a timeout is retried"),
    };
    match retry.advance(AcquireOutcome::<u32>::Timeout) {
        AcquireStep::Fail(error) => assert_eq!(error, FrameError::Transient),
        _ => panic!("a second timeout ends the acquisition"),
    }

    let (config, retry) = match gpu.acquisition().advance(AcquireOutcome::<u32>::Lost) {
        AcquireStep::Reconfigure(config, retry) => (config, retry),
        _ => panic!("a lost surface is configured again"),
    };
    assert_eq!((config.width(), config.height()), (800, 600));
    assert_eq!(config.format(), TextureFormat::Bgra8UnormSrgb);
    match retry.advance(AcquireOutcome::Acquired(8u32)) {
        AcquireStep::Deliver(target) => {
            assert_eq!((target.width(), target.height()), (800, 600));
            assert_eq!(target.finish(), 8);
        }
        _ => panic!("the retry's image is delivered"),
    }
}

#[test]
fn a_retry_is_never_retried() {
    let gpu = acquire_gpu();
    let retry = match gpu.acquisition().advance(AcquireOutcome::<u32>::Timeout) {
        AcquireStep::Retry(retry) => retry,
        _ => panic!("a timeout is retried"),
    };
    assert!(matches!(
        retry.advance(AcquireOutcome::<u32>::Lost),
        AcquireStep::Fail(FrameError::Transient)
    ));

    let retry = match gpu.acquisition().advance(AcquireOutcome::<u32>::Outdated) {
        AcquireStep::Reconfigure(_, retry) => retry,
        _ => panic!("an outdated surface is configured again"),
    };
    assert!(matches!(
        retry.advance(AcquireOutcome::<u32>::Timeout),
        AcquireStep::Fail(FrameError::Fatal)
    ));
}
