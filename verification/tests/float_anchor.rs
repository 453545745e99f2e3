use fonos_app::float_anchor::FloatAnchors;

#[test]
fn home_is_unset_until_chosen() {
    let mut a: FloatAnchors<(i32, i32)> = FloatAnchors::new();
    assert_eq!(a.float_anchor(), None);
    assert_eq!(a.float_home(), None);
    a.set_float_anchor((5, 6));
    assert_eq!(a.float_anchor(), Some((5, 6)));
    assert_eq!(a.float_home(), None);
}

#[test]
fn cursor_moves_never_change_home() {
    let mut a: FloatAnchors<(i32, i32)> = FloatAnchors::new();
    a.set_float_home((100, 200));
    assert_eq!(a.float_home(), Some((100, 200)));
    assert_eq!(a.float_anchor(), Some((100, 200)));
    for p in [(1, 1), (40, -3), (7, 900)] {
        a.set_float_anchor(p);
        assert_eq!(a.float_anchor(), Some(p));
        assert_eq!(a.float_home(), Some((100, 200)));
    }
    a.set_float_home((0, 0));
    assert_eq!(a.float_home(), Some((0, 0)));
    assert_eq!(a.float_anchor(), Some((0, 0)));
}
