use privatewhisper::app::State;
use privatewhisper::asr::{load_plan, provider_to_try};
use privatewhisper::config::Provider;
use privatewhisper::overlay::{
    accent_for, bottom_center, is_active, mode_for, Mode, RECORDING_ACCENT, TRACK,
};
use privatewhisper::tray::{icon_rgba, tooltip_for};

#[test]
fn tooltips_name_the_state() {
    assert_eq!(tooltip_for(State::Idle), "privatewhisper - idle");
    assert_eq!(tooltip_for(State::Recording), "privatewhisper - recording");
    assert_eq!(tooltip_for(State::Transcribing), "privatewhisper - transcribing");
}

#[test]
fn icon_is_a_square_of_the_state_colour() {
    let rgba = icon_rgba(State::Recording);
    assert_eq!(rgba.len(), 32 * 32 * 4);
    assert!(rgba.chunks(4).all(|p| p == [229, 57, 53, 255]));
    assert_eq!(&icon_rgba(State::Idle)[..4], &[38, 166, 154, 255]);
}

#[test]
fn overlay_shows_only_while_busy() {
    assert!(!is_active(mode_for(State::Idle)));
    assert!(is_active(mode_for(State::Recording)));
    assert_eq!(mode_for(State::Transcribing), Mode::Transcribing);
    assert_eq!(accent_for(Mode::Recording), RECORDING_ACCENT);
    assert_eq!(accent_for(Mode::Idle), TRACK);
}

#[test]
fn cuda_falls_back_to_cpu() {
    assert_eq!(load_plan(Provider::Cuda), vec![Provider::Cuda, Provider::Cpu]);
    assert_eq!(load_plan(Provider::Cpu), vec![Provider::Cpu]);
}

#[test]
fn overlay_sits_bottom_centre() {
    assert_eq!(bottom_center(0, 0, 1920, 1080, 360, 72), (780, 918));
    assert_eq!(bottom_center(100, 50, 1921, 1080, 360, 72), (880, 968));
    assert_eq!(bottom_center(0, 0, 100, 200, 361, 10), (-130, 100));
}

#[test]
fn providers_are_tried_until_the_plan_runs_out() {
    assert_eq!(provider_to_try(Provider::Cuda, 0), Some(Provider::Cuda));
    assert_eq!(provider_to_try(Provider::Cuda, 1), Some(Provider::Cpu));
    assert_eq!(provider_to_try(Provider::Cuda, 2), None);
    assert_eq!(provider_to_try(Provider::Cpu, 1), None);
}
