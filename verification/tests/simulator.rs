use wine_fermentation::flavor::WineRecord;
use wine_fermentation::simulator::WineFermentationApp;

fn table() -> Vec<WineRecord> {
    vec![
        WineRecord { grape: "Merlot".to_string(), characteristics: "Plum".to_string() },
        WineRecord { grape: "merlot".to_string(), characteristics: "Black Cherry".to_string() },
        WineRecord { grape: "Syrah".to_string(), characteristics: "Pepper".to_string() },
    ]
}

fn merlot_form() -> WineFermentationApp {
    let mut app = WineFermentationApp::new(table());
    app.grape_type = "Merlot".to_string();
    app.fermentation_days = "14".to_string();
    app.container_type = "Oak Barrel".to_string();
    app.sugar_content = "220".to_string();
    app.temperature = "22".to_string();
    app.climate = "Moderate".to_string();
    app
}

const FAILURE: &str = "Fermentation failed: temperature out of range for yeast activity.";

#[test]
fn a_new_form_is_empty() {
    let app = WineFermentationApp::new(table());
    assert_eq!(app.wine_data, table());
    assert_eq!(app.grape_type, "");
    assert_eq!(app.fermentation_days, "");
    assert_eq!(app.container_type, "");
    assert_eq!(app.sugar_content, "");
    assert_eq!(app.temperature, "");
    assert_eq!(app.climate, "");
    assert_eq!(app.result_text, "");
    assert!(WineFermentationApp::new(Vec::new()).wine_data.is_empty());
}

#[test]
fn the_form_is_read_into_an_input() {
    let app = merlot_form();
    assert_eq!(app.days(), 14);
    let input = app.input(22_000);
    assert_eq!(input.grape, "Merlot");
    assert_eq!(input.days, 14);
    assert_eq!(input.container, "Oak Barrel");
    assert_eq!(input.sugar_content, 220);
    assert_eq!(input.temperature_millidegrees, 22_000);
    assert_eq!(input.climate, "Moderate");
}

#[test]
fn counts_that_cannot_be_read_are_zero() {
    let mut app = merlot_form();
    app.fermentation_days = "a fortnight".to_string();
    app.sugar_content = "22o".to_string();
    assert_eq!(app.days(), 0);
    assert_eq!(app.input(22_000).days, 0);
    assert_eq!(app.input(22_000).sugar_content, 0);
    app.fermentation_days = " 21 ".to_string();
    app.sugar_content = "-220".to_string();
    assert_eq!(app.days(), 21);
    assert_eq!(app.input(22_000).sugar_content, 0);
    let empty = WineFermentationApp::new(Vec::new());
    assert_eq!(empty.days(), 0);
    assert_eq!(empty.input(0).sugar_content, 0);
}

#[test]
fn out_of_range_the_result_is_the_failure_message() {
    let mut app = merlot_form();
    app.simulate(45_000, 963_700);
    assert_eq!(app.result_text, FAILURE);
    app.simulate(4_999, 963_700);
    assert_eq!(app.result_text, FAILURE);
    app.simulate(40_001, 0);
    assert_eq!(app.result_text, FAILURE);
    app.simulate(-5_000, u64::MAX);
    assert_eq!(app.result_text, FAILURE);
    let mut empty = WineFermentationApp::new(Vec::new());
    empty.simulate(0, 0);
    assert_eq!(empty.result_text, FAILURE);
}

#[test]
fn a_failure_replaces_an_earlier_summary() {
    let mut app = merlot_form();
    app.simulate(22_000, 963_700);
    assert!(app.result_text.starts_with("Your Merlot wine"));
    app.simulate(45_000, 963_700);
    assert_eq!(app.result_text, FAILURE);
    app.simulate(22_000, 963_700);
    assert!(app.result_text.starts_with("Your Merlot wine"));
}

#[test]
fn a_simulation_leaves_the_form_as_it_was() {
    let mut app = merlot_form();
    app.simulate(22_000, 963_700);
    assert_eq!(app.wine_data, table());
    assert_eq!(app.grape_type, "Merlot");
    assert_eq!(app.fermentation_days, "14");
    assert_eq!(app.container_type, "Oak Barrel");
    assert_eq!(app.sugar_content, "220");
    assert_eq!(app.temperature, "22");
    assert_eq!(app.climate, "Moderate");
}

#[test]
fn merlot_scenario_through_the_form() {
    let mut app = merlot_form();
    for _ in 0..50 {
        app.simulate(22_000, 963_700);
        let plum = app.result_text.contains("It shows hints of plum in its flavor profile.");
        let cherry =
            app.result_text.contains("It shows hints of black cherry in its flavor profile.");
        assert!(plum || cherry);
        let note = if plum { "plum" } else { "black cherry" };
        assert_eq!(
            app.result_text,
            format!(
                "Your Merlot wine was fermented over 14 days in a Oak Barrel that adds woody, oaky undertones. \
The initial sugar level was 220.0 g/L (adjusted for a moderate climate), which could have reached a potential of 13.1% ABV.\n\n\
Fermenting at 22°C, about 96.4% of that potential was met, resulting in a final ABV of 12.6%% and leaving behind a residual sugar of 8.0 g/L, making it with just a subtle hint of sweetness.\n\n\
The wine is full-bodied in body, with smooth, moderate tannins tannins and moderate acidity. It shows hints of {} in its flavor profile.\n\n\
The alcohol content is classified as moderate.\n\n\
Enjoy your wine.",
                note
            )
        );
    }
}

#[test]
fn grape_in_lower_case_gives_the_same_wine() {
    let mut app = merlot_form();
    app.wine_data.truncate(1);
    app.simulate(22_000, 963_700);
    let capital = app.result_text.clone();
    app.grape_type = "merlot".to_string();
    app.simulate(22_000, 963_700);
    assert_eq!(app.result_text, capital.replacen("Your Merlot wine", "Your merlot wine", 1));
    assert!(app.result_text.contains("It shows hints of plum in its flavor profile."));
}
