use dioxus_utils::{DataState, NotLoadedCases, RenderState};

#[test]
fn fresh_state_is_unloaded() {
    let s: DataState<u32> = DataState::new();
    assert!(s.is_none());
    assert!(!s.is_loading());
    assert!(!s.has_value());
    assert!(!s.had_data_loaded_once());
    assert!(matches!(s.to_not_loaded_cases(), Some(NotLoadedCases::Unloaded)));
}

#[test]
fn default_matches_new() {
    let s: DataState<u32> = DataState::default();
    assert!(s.is_none());
    assert!(!s.had_data_loaded_once());
}

#[test]
fn get_loaded_needs_a_value_and_returns_it_after_load() {
    let mut s: DataState<String> = DataState::new();
    assert!(!s.has_value());
    s.set_loaded("v".to_string());
    assert!(s.has_value());
    assert_eq!(s.unwrap_as_loaded().as_str(), "v");
}

#[test]
fn ever_loaded_is_sticky_through_ordinary_transitions() {
    let mut s: DataState<u32> = DataState::new();
    s.set_loading();
    assert!(!s.had_data_loaded_once());
    s.set_loaded(1);
    assert!(s.had_data_loaded_once());
    s.set_loading();
    assert!(s.had_data_loaded_once());
    s.set_error("boom".to_string());
    assert!(s.had_data_loaded_once());
    s.reset();
    assert!(s.had_data_loaded_once());
    assert!(s.is_none());
    s.hard_reset();
    assert!(!s.had_data_loaded_once());
    assert!(s.is_none());
}

#[test]
fn set_value_sets_flag() {
    let mut s: DataState<u32> = DataState::new();
    s.set_value(3);
    assert!(s.had_data_loaded_once());
    assert_eq!(s.try_unwrap_as_loaded(), Some(&3));
}

#[test]
fn try_get_loaded_in_every_phase() {
    let mut s: DataState<u32> = DataState::new();
    assert_eq!(s.try_unwrap_as_loaded(), None);
    s.set_loading();
    assert_eq!(s.try_unwrap_as_loaded(), None);
    s.set_error("e".to_string());
    assert_eq!(s.try_unwrap_as_loaded(), None);
    s.set_loaded(5);
    assert_eq!(s.try_unwrap_as_loaded(), Some(&5));
}

#[test]
fn not_loaded_cases_per_phase() {
    let mut s: DataState<u32> = DataState::new();
    s.set_loading();
    assert!(matches!(s.to_not_loaded_cases(), Some(NotLoadedCases::Loading)));
    s.set_loaded(1);
    assert!(s.to_not_loaded_cases().is_none());
    s.set_error("e".to_string());
    assert!(s.to_not_loaded_cases().is_none());
}

#[test]
fn mutable_access_changes_value_in_place() {
    let mut s: DataState<Vec<u32>> = DataState::new();
    assert!(s.try_unwrap_as_loaded_mut().is_none());
    s.set_loaded(vec![1]);
    if let Some(v) = s.try_unwrap_as_loaded_mut() {
        v.push(2);
    }
    s.unwrap_as_loaded_mut().push(3);
    assert_eq!(s.try_unwrap_as_loaded(), Some(&vec![1, 2, 3]));
}

#[test]
fn error_reason_is_kept() {
    let mut s: DataState<u32> = DataState::new();
    s.set_error("timeout".to_string());
    assert!(matches!(s.as_ref(), RenderState::Error(r) if r == "timeout"));
}

#[test]
fn render_state_transitions() {
    let mut r: RenderState<u32> = RenderState::new();
    assert!(r.is_none());
    r.set_loading();
    assert!(r.is_loading());
    r.set_loaded(4);
    assert!(r.has_value());
    assert_eq!(r.try_unwrap_as_loaded(), Some(&4));
    assert_eq!(*r.unwrap_as_loaded(), 4);
    if let Some(v) = r.try_unwrap_as_loaded_mut() {
        *v = 8;
    }
    assert_eq!(r.as_ref().try_unwrap_as_loaded(), Some(&8));
    r.set_value(9);
    assert_eq!(r.try_unwrap_as_loaded(), Some(&9));
    r.set_error("x".to_string());
    assert!(!r.has_value());
    r.set_none();
    assert!(r.is_none());
}

#[test]
fn render_state_mutable_unwrap() {
    let mut r: RenderState<u32> = RenderState::new();
    assert!(!r.has_value());
    r.set_loaded(1);
    *r.unwrap_as_loaded_mut() += 1;
    assert_eq!(r.try_unwrap_as_loaded(), Some(&2));
}
