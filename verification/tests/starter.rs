use oort::scenario::{load, Scenario};
use oort::starter::{TUTORIAL01_CODE, TUTORIAL04_SOLUTION, WELCOME_CODE};
use oort::vec2::Vec2;

#[test]
fn scenarios_without_a_lesson_start_with_an_empty_editor() {
    for scenario in [Scenario::Basic, Scenario::Asteroid, Scenario::BulletStress] {
        assert_eq!(scenario.initial_code(), "");
        assert_eq!(scenario.solution(), "");
    }
    assert_eq!(Scenario::Welcome.solution(), "");
}

#[test]
fn the_opening_screen_greets() {
    assert_eq!(
        Scenario::Welcome.initial_code(),
        "// Welcome to Oort.\n// Select a scenario from the list in the top-right of the page.\n// If you're new, start with \"tutorial01\"."
    );
    assert_eq!(Scenario::Welcome.initial_code(), WELCOME_CODE);
}

#[test]
fn the_first_tutorial_differs_from_its_solution_by_one_comment() {
    let code = Scenario::Tutorial01.initial_code();
    let solution = Scenario::Tutorial01.solution();
    assert_eq!(
        code,
        "// Tutorial 01\n// Destroy the asteroid.\n\nfn tick() {\n    // Uncomment me, then press ctrl-Enter to upload the code.\n    // api.fire_weapon();\n}"
    );
    assert_eq!(code, TUTORIAL01_CODE);
    assert_eq!(solution, code.replace("// api.fire_weapon();", "api.fire_weapon();"));
}

#[test]
fn the_second_tutorial_accelerates_along_the_axis() {
    let scenario = Scenario::Tutorial02 { on_target_ticks: 0 };
    assert_eq!(
        scenario.initial_code(),
        "// Tutorial 02\n// Fly to the target circle and stop.\n\nfn tick() {\n    api.accelerate(vec2(100.0, 0.0));\n}"
    );
    let solution = scenario.solution();
    assert!(solution.starts_with("// Tutorial 02\n// Fly to the target circle and stop.\n\nfn tick() {\n    let acc = 100.0;\n"));
    assert!(solution.ends_with("        api.accelerate(vec2(-acc, 0.0));\n    }\n}\n"));
    assert_eq!(solution.lines().count(), 19);
}

#[test]
fn the_later_tutorials_have_neither_leading_nor_trailing_space() {
    let third = Scenario::Tutorial03 { on_target_ticks: 0, target: Vec2::new(0, 0) };
    let fourth = Scenario::Tutorial04 { target: Vec2::new(0, 0) };
    for text in [third.initial_code(), third.solution(), fourth.initial_code(), fourth.solution()] {
        assert_eq!(text, text.trim());
        assert!(text.starts_with("// Tutorial 0"));
        assert!(text.ends_with("}"));
    }
    assert_eq!(
        third.initial_code(),
        "// Tutorial 03\n// Fly to the target circle and stop. The target is in a random\n// location given by the \"target\" variable.\n\nfn tick() {\n    api.accelerate(0.1 * (target - api.position()));\n}"
    );
    assert_eq!(
        fourth.initial_code(),
        "// Tutorial 04\n// Destroy the asteroid. The target is in a random\n// location given by the \"target\" variable.\n\nfn tick() {\n    api.accelerate(0.1 * (target - api.position()));\n    api.fire_weapon();\n}"
    );
    assert_eq!(fourth.solution(), TUTORIAL04_SOLUTION);
    assert_eq!(fourth.solution().lines().count(), 42);
    assert!(fourth.solution().contains("\n         turn(-dh);\n"));
}

#[test]
fn texts_do_not_depend_on_progress_or_target() {
    let a = Scenario::Tutorial03 { on_target_ticks: 0, target: Vec2::new(0, 0) };
    let b = Scenario::Tutorial03 { on_target_ticks: 99, target: Vec2::new(5, -5) };
    assert_eq!(a.initial_code(), b.initial_code());
    assert_eq!(a.solution(), b.solution());
}

#[test]
fn programs_are_kept_under_the_name_of_their_scenario() {
    assert_eq!(Scenario::Basic.storage_key(), "/code/basic");
    assert_eq!(Scenario::BulletStress.storage_key(), "/code/bullet-stress");
    assert_eq!(load("tutorial03").storage_key(), "/code/tutorial03");
}

#[test]
fn a_saved_program_comes_before_the_starting_point() {
    let scenario = Scenario::Tutorial01;
    assert_eq!(scenario.editor_code(Some("fn tick() {}".to_string())), "fn tick() {}");
    assert_eq!(scenario.editor_code(Some(String::new())), "");
    assert_eq!(scenario.editor_code(None), scenario.initial_code());
    assert_eq!(Scenario::Basic.editor_code(None), "");
}
