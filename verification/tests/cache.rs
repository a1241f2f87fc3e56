use svg_invert::cache::{compute_replacement, ColorCache};
use svg_invert::InvertSvg;

#[test]
fn new_cache_is_empty() {
    let cache = ColorCache::new();
    assert_eq!(cache.len(), 0);
    assert_eq!(cache.lookup("#FF0000"), None);
}

#[test]
fn first_lookup_misses_and_later_lookups_hit() {
    let mut cache = ColorCache::new();
    assert_eq!(cache.lookup("#FF0000"), None);
    assert_eq!(cache.lookup_or_compute("#FF0000"), "#00FFFFFF");
    assert_eq!(cache.len(), 1);
    assert_eq!(cache.lookup("#FF0000"), Some("#00FFFFFF".to_string()));
    assert_eq!(cache.lookup_or_compute("#FF0000"), "#00FFFFFF");
    assert_eq!(cache.lookup_or_compute("#FF0000"), "#00FFFFFF");
    assert_eq!(cache.len(), 1);
}

#[test]
fn repeated_lookups_agree_whatever_comes_between() {
    let mut cache = ColorCache::new();
    let first = cache.lookup_or_compute("teal");
    for other in ["red", "#123", "none", "currentColor", "rgb(1, 2, 3)"] {
        cache.lookup_or_compute(other);
    }
    assert_eq!(cache.lookup_or_compute("teal"), first);
    assert_eq!(cache.len(), 6);
}

#[test]
fn keys_are_exact_strings() {
    let mut cache = ColorCache::new();
    assert_eq!(cache.lookup_or_compute("#ff0000"), "#00FFFFFF");
    assert_eq!(cache.lookup_or_compute("#FF0000"), "#00FFFFFF");
    assert_eq!(cache.lookup_or_compute("red"), "#00FFFFFF");
    assert_eq!(cache.len(), 3);
    assert_eq!(cache.lookup("RED"), None);
}

#[test]
fn unparseable_literal_is_remembered_as_itself() {
    let mut cache = ColorCache::new();
    assert_eq!(cache.lookup_or_compute("not-a-color"), "not-a-color");
    assert_eq!(cache.lookup("not-a-color"), Some("not-a-color".to_string()));
    assert_eq!(cache.lookup_or_compute("not-a-color"), "not-a-color");
    assert_eq!(cache.len(), 1);
}

#[test]
fn current_color_is_remembered_as_itself() {
    let mut cache = ColorCache::new();
    assert_eq!(cache.lookup_or_compute("currentColor"), "currentColor");
    assert_eq!(cache.lookup("currentColor"), Some("currentColor".to_string()));
}

#[test]
fn compute_replacement_inverts_or_keeps() {
    assert_eq!(compute_replacement("#000000"), "#FFFFFFFF");
    assert_eq!(compute_replacement("currentColor"), "currentColor");
    assert_eq!(compute_replacement("not-a-color"), "not-a-color");
    assert_eq!(compute_replacement(""), "");
}

#[test]
fn inverter_answers_like_a_cache() {
    let inverter = InvertSvg::new();
    assert_eq!(inverter.lookup_or_compute("#FF0000"), "#00FFFFFF");
    assert_eq!(inverter.lookup_or_compute("#FF0000"), "#00FFFFFF");
    assert_eq!(inverter.lookup_or_compute("not-a-color"), "not-a-color");
    assert_eq!(inverter.lookup_or_compute("currentColor"), "currentColor");
}

#[test]
fn clones_of_an_inverter_answer_alike() {
    let inverter = InvertSvg::new();
    let clone = inverter.clone();
    assert_eq!(inverter.lookup_or_compute("navy"), "#FFFF7FFF");
    assert_eq!(clone.lookup_or_compute("navy"), "#FFFF7FFF");
}

fn shared_between_threads<T: Send + Sync + Clone>(_: &T) {}

#[test]
fn an_inverter_can_be_shared_between_threads() {
    shared_between_threads(&InvertSvg::new());
}
