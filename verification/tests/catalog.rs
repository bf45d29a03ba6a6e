use relmy_vibes::stations::{select_search_results, Station, StationList, StationListItem};

fn st(name: &str, url: &str) -> Station {
    Station::new(name.to_string(), url.to_string())
}

#[test]
fn station_identity_is_structural() {
    let a = st("Jazz", "http://example.com/jazz");
    let b = st("Jazz", "http://example.com/jazz");
    let c = st("Jazz", "http://example.com/other");
    assert!(a == b);
    assert!(a != c);
    let d = a.duplicate();
    assert!(d == a);
}

#[test]
fn append_assigns_position_ids() {
    let mut l = StationList::new();
    assert_eq!(l.len(), 0);
    l.append(st("A", "http://a"));
    l.append(st("B", "http://b"));
    l.append(st("C", "http://c"));
    assert_eq!(l.len(), 3);
    assert_eq!(l.get_by_id(Some(0)), Some(0));
    assert_eq!(l.get_by_id(Some(2)), Some(2));
    assert_eq!(l.get_by_id(Some(7)), None);
    assert_eq!(l.get_by_id(None), None);
}

#[test]
fn marking_turns_label_bold_and_back() {
    let mut e = StationListItem::new(st("Jazz", "http://j"), 0);
    assert!(!e.is_active);
    assert_eq!(e.label, "Jazz");
    e.active();
    assert!(e.is_active);
    assert_eq!(e.label, "<b>Jazz</b>");
    e.inactive();
    assert!(!e.is_active);
    assert_eq!(e.label, "Jazz");
}

#[test]
fn activate_by_id_marks_only_the_first_match() {
    let mut l = StationList::new();
    l.append(st("A", "http://a"));
    l.append(st("B", "http://b"));
    l.activate_by_id(Some(1));
    assert!(!l.is_active_at(0));
    assert!(l.is_active_at(1));
    assert_eq!(l.label_at(0), "A");
    assert_eq!(l.label_at(1), "<b>B</b>");
    l.deactivate_by_id(Some(1));
    assert!(!l.is_active_at(1));
    assert_eq!(l.label_at(1), "B");
    l.activate_by_id(None); // no id: nothing happens
    assert!(!l.is_active_at(0));
    assert!(!l.is_active_at(1));
}

#[test]
fn remove_by_id_keeps_order_of_the_rest() {
    let mut l = StationList::new();
    l.append(st("A", "http://a"));
    l.append(st("B", "http://b"));
    l.append(st("C", "http://c"));
    l.remove_by_id(1);
    let stations = l.stations();
    assert_eq!(stations.len(), 2);
    assert_eq!(stations[0].name, "A");
    assert_eq!(stations[1].name, "C");
    l.remove_by_id(9); // absent id: nothing removed
    assert_eq!(l.len(), 2);
}

#[test]
fn load_from_appends_in_order() {
    let mut l = StationList::new();
    let saved = vec![st("A", "http://a"), st("B", "http://b")];
    l.load_from(&saved);
    assert_eq!(l.len(), 2);
    let stations = l.stations();
    assert_eq!(stations[0].name, "A");
    assert_eq!(stations[0].url, "http://a");
    assert_eq!(stations[1].name, "B");
    assert_eq!(l.get_by_id(Some(1)), Some(1));
}

#[test]
fn search_results_are_truncated_to_the_bound() {
    let mut many = Vec::new();
    for i in 0..12 {
        many.push(st(&format!("S{}", i), &format!("http://s{}", i)));
    }
    let kept = select_search_results(many);
    assert_eq!(kept.len(), 10);
    assert_eq!(kept[0].name, "S0");
    assert_eq!(kept[9].name, "S9");
}

#[test]
fn short_search_results_are_kept_whole() {
    let few = vec![st("A", "http://a"), st("B", "http://b")];
    let kept = select_search_results(few);
    assert_eq!(kept.len(), 2);
    assert_eq!(kept[0].name, "A");
    assert_eq!(kept[1].name, "B");
}
