use wine_fermentation::tannin::{tannin_base, tannin_level};

#[test]
fn every_known_grape_has_its_tannins() {
    assert_eq!(tannin_base("cabernet sauvignon"), "robust, high tannins");
    assert_eq!(tannin_base("merlot"), "smooth, moderate tannins");
    assert_eq!(tannin_base("pinot noir"), "delicate, low tannins");
    assert_eq!(tannin_base("syrah"), "moderate tannins");
    assert_eq!(tannin_base("shiraz"), "moderate tannins");
    assert_eq!(tannin_base("tempranillo"), "moderate tannins");
    assert_eq!(tannin_base("zinfandel"), "spicy, moderately high tannins");
    assert_eq!(tannin_base("sangiovese"), "moderate tannins");
    assert_eq!(tannin_base("chardonnay"), "minimal tannins");
    assert_eq!(tannin_base("sauvignon blanc"), "minimal tannins");
    assert_eq!(tannin_base("riesling"), "very minimal tannins");
}

#[test]
fn other_grapes_have_unknown_tannins() {
    assert_eq!(tannin_base("malbec"), "unknown tannin levels");
    assert_eq!(tannin_base(""), "unknown tannin levels");
    assert_eq!(tannin_base("Merlot"), "unknown tannin levels");
    assert_eq!(tannin_base("merlot "), "unknown tannin levels");
}

#[test]
fn the_climate_leaves_its_remark() {
    assert_eq!(
        tannin_level("moderate tannins", 110),
        "moderate tannins (slightly accentuated by the warm climate)"
    );
    assert_eq!(tannin_level("moderate tannins", 101), "moderate tannins (slightly accentuated by the warm climate)");
    assert_eq!(tannin_level("moderate tannins", 100), "moderate tannins");
    assert_eq!(
        tannin_level("moderate tannins", 99),
        "moderate tannins (somewhat less pronounced in the cool climate)"
    );
    assert_eq!(tannin_level("", 0), " (somewhat less pronounced in the cool climate)");
}
