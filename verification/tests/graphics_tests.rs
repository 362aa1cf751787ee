//! Tests of the pipeline, render targets, the stopwatch, the cells, and the
//! event payload types.

use covalent::cell::SharedCell;
use covalent::graphics::Pipeline;
use covalent::graphics::PipelinePhase;
use covalent::graphics::RenderChannel;
use covalent::graphics::RenderSettings;
use covalent::graphics::RenderTarget;
use covalent::input::ElementState;
use covalent::input::VirtualKeyCode;
use covalent::events::KeyboardEvent;
use covalent::events::MouseDeltaEvent;
use covalent::events::WindowResizeEvent;
use covalent::InterpolatedStopwatch;

#[test]
fn pipeline_phases_ordered_by_time() {
    let mut pipeline = Pipeline::new();
    assert!(!pipeline.check_phases());

    pipeline.add_phase(
        100,
        String::from("Render"),
        PipelinePhase::Render { settings: RenderSettings::new(), target: RenderTarget::Window },
    );
    pipeline.add_phase(0, String::from("Clear"), PipelinePhase::Clear {
        target: RenderTarget::Window,
    });
    assert!(pipeline.check_phases());

    let phases = pipeline.iter();
    assert_eq!(phases.len(), 2);
    assert_eq!(phases[0].0, 0);
    assert_eq!(phases[0].1, "Clear");
    assert_eq!(phases[1].0, 100);
    assert_eq!(phases[1].1, "Render");
}

#[test]
fn clear_only_pipeline_fails_the_window_rule() {
    let mut pipeline = Pipeline::new();
    pipeline.add_phase(0, String::from("Clear"), PipelinePhase::Clear {
        target: RenderTarget::Window,
    });
    assert!(!pipeline.check_phases());
}

#[test]
fn window_channels() {
    let window = RenderTarget::Window;
    assert!(window.is_render_channel_supported(RenderChannel::Colour(0)));
    assert!(!window.is_render_channel_supported(RenderChannel::Colour(1)));
    assert!(!window.is_render_channel_supported(RenderChannel::Colour(7)));
    assert!(window.is_render_channel_supported(RenderChannel::Depth));
}

#[test]
fn stopwatch_ticks() {
    let mut stopwatch = InterpolatedStopwatch::new(4);
    for _ in 0..10 {
        let _delta = stopwatch.tick();
    }
    // Ten immediate ticks happen within far less than a second on average.
    assert!(stopwatch.average_time() < 1_000_000);
}

#[test]
fn cells_read_and_hold() {
    let cell = SharedCell::new(3u32);
    assert_eq!(cell.try_read_value(), Some(3));

    {
        let mut hold = cell.try_write_hold().expect("free cell must write-lock");
        assert_eq!(*hold.value(), 3);
        hold.store(9);
        // A write hold excludes every other holder.
        assert!(cell.try_read_hold().is_none());
    }
    assert_eq!(cell.try_read_value(), Some(9));

    let weak = cell.downgrade();
    assert!(weak.upgrade().is_some());
    let copy = weak.duplicate();
    drop(cell);
    assert!(weak.upgrade().is_none());
    assert!(copy.upgrade().is_none());
}

#[test]
fn shared_cells_alias() {
    let cell = SharedCell::new(1u32);
    let other = cell.share();
    {
        let mut hold = other.try_write_hold().expect("free cell must write-lock");
        hold.store(5);
    }
    assert_eq!(cell.try_read_value(), Some(5));
    let weak = cell.downgrade();
    drop(cell);
    // The shared owner keeps the value alive.
    assert!(weak.upgrade().is_some());
    drop(other);
    assert!(weak.upgrade().is_none());
}

#[test]
fn event_payload_shapes() {
    let key = KeyboardEvent {
        scan_code: 17,
        state: ElementState::Pressed,
        virtual_keycode: Some(VirtualKeyCode::W),
    };
    assert_eq!(key.scan_code, 17);
    assert_eq!(key.state, ElementState::Pressed);
    assert_eq!(key.virtual_keycode, Some(VirtualKeyCode::W));

    let motion = MouseDeltaEvent { delta_x: -4, delta_y: 11 };
    assert_eq!(motion.delta_x, -4);
    assert_eq!(motion.delta_y, 11);

    let resize = WindowResizeEvent { width: 800, height: 600 };
    assert_eq!(resize.width, 800);
    assert_eq!(resize.height, 600);
}
