use war_overlay::overlay::{derive_overlay, diff_class, overlay_of, races_left, OverlayData, WarRecord};

fn war(diff: Vec<i32>) -> WarRecord {
    WarRecord { tag: "AB".to_string(), enemy_tag: "CD".to_string(), diff }
}

#[test]
fn example_series_derives_scores() {
    let o = derive_overlay(&war(vec![5, -3, 2])).unwrap();
    assert_eq!(o.diff, 4);
    assert_eq!(o.score, 125);
    assert_eq!(o.enemy_score, 121);
    assert_eq!(o.last_diff, Some(2));
    assert_eq!(o.race_left, 9);
    assert_eq!(o.tag, "AB");
    assert_eq!(o.enemy_tag, "CD");
}

#[test]
fn empty_series_derives_zeroes() {
    let o = derive_overlay(&war(vec![])).unwrap();
    assert_eq!(o.last_diff, None);
    assert_eq!(o.score, 0);
    assert_eq!(o.enemy_score, 0);
    assert_eq!(o.diff, 0);
    assert_eq!(o.race_left, 12);
}

#[test]
fn races_left_boundaries() {
    assert_eq!(races_left(0), 12);
    assert_eq!(races_left(11), 1);
    assert_eq!(races_left(12), 0);
    assert_eq!(races_left(13), 3);
    assert_eq!(races_left(14), 2);
    assert_eq!(races_left(15), 1);
    assert_eq!(races_left(16), 0);
    assert_eq!(races_left(1000), 0);
}

#[test]
fn races_left_stays_in_range() {
    for n in 0..200usize {
        let r = races_left(n);
        assert!(r >= 0 && r <= 12);
    }
}

#[test]
fn derived_race_left_at_boundaries() {
    assert_eq!(derive_overlay(&war(vec![0; 12])).unwrap().race_left, 0);
    assert_eq!(derive_overlay(&war(vec![0; 11])).unwrap().race_left, 1);
    assert_eq!(derive_overlay(&war(vec![0; 13])).unwrap().race_left, 3);
    assert_eq!(derive_overlay(&war(vec![0; 16])).unwrap().race_left, 0);
}

#[test]
fn even_total_splits_exactly() {
    let o = derive_overlay(&war(vec![7, 3])).unwrap();
    assert_eq!(o.score - o.enemy_score, o.diff);
    assert_eq!(o.score + o.enemy_score, 2 * 41 * 2);
    assert_eq!(o.score, 87);
    assert_eq!(o.enemy_score, 77);
}

#[test]
fn odd_total_halves_toward_zero() {
    let o = derive_overlay(&war(vec![-3])).unwrap();
    assert_eq!(o.diff, -3);
    assert_eq!(o.score, 40);
    assert_eq!(o.enemy_score, 42);
    let p = derive_overlay(&war(vec![3])).unwrap();
    assert_eq!(p.score, 42);
    assert_eq!(p.enemy_score, 40);
}

#[test]
fn total_out_of_range_is_malformed() {
    assert_eq!(derive_overlay(&war(vec![i32::MAX, 1])), None);
    assert_eq!(derive_overlay(&war(vec![i32::MIN, -1])), None);
}

#[test]
fn partial_sums_may_leave_range() {
    let o = derive_overlay(&war(vec![i32::MAX, i32::MAX, -i32::MAX, -i32::MAX])).unwrap();
    assert_eq!(o.diff, 0);
    assert_eq!(o.score, 164);
}

#[test]
fn absent_record_gives_no_overlay() {
    assert_eq!(overlay_of(None), None);
    let o: Option<OverlayData> = overlay_of(Some(war(vec![1, 1])));
    assert_eq!(o.unwrap().score, 83);
}

#[test]
fn diff_class_follows_sign() {
    assert_eq!(diff_class(4), "plus");
    assert_eq!(diff_class(-1), "minus");
    assert_eq!(diff_class(0), "");
}
