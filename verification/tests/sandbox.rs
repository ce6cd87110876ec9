use oort::sandbox::{
    compile, controls_of, create_programmed, install, plan_tick, upload_code, Controls, Sandbox,
    TickOutcome,
};
use oort::scenario::Scenario;
use oort::vec2::Vec2;
use oort::world::{ShipClass, ShipHandle, World, ENEMY_TEAM, PLAYER_TEAM};

const GOOD: &str = "fn tick() { let x = 1 + 2; }";
const BAD: &str = "fn tick( { let x = ; }";

fn asked(x: i32, torque: i32, fire: bool) -> Controls {
    Controls { acceleration: Vec2::new(x, -x), torque, fire }
}

fn assert_controls(found: &Controls, expected: &Controls) {
    assert_eq!(found.acceleration, expected.acceleration);
    assert_eq!(found.torque, expected.torque);
    assert_eq!(found.fire, expected.fire);
}

fn idle() -> Controls {
    Controls { acceleration: Vec2::new(0, 0), torque: 0, fire: false }
}

#[test]
fn a_program_that_parses_compiles() {
    let sandbox = compile(GOOD).expect("a good program");
    assert_eq!(sandbox.source, GOOD);
    let engine = rhai::Engine::new();
    let mut scope = rhai::Scope::new();
    assert!(engine.call_fn::<()>(&mut scope, &sandbox.program, "tick", ()).is_ok());
}

#[test]
fn a_program_that_does_not_parse_is_rejected_with_a_message() {
    let error = compile(BAD).err().expect("a bad program");
    assert!(!error.message.is_empty());
    assert_ne!(error.message, BAD);
}

#[test]
fn the_empty_program_compiles() {
    assert!(compile("").is_ok());
}

#[test]
fn the_starting_points_and_solutions_compile() {
    let scenarios = [
        Scenario::Welcome,
        Scenario::Tutorial01,
        Scenario::Tutorial02 { on_target_ticks: 0 },
        Scenario::Tutorial03 { on_target_ticks: 0, target: Vec2::new(0, 0) },
        Scenario::Tutorial04 { target: Vec2::new(0, 0) },
    ];
    for scenario in scenarios {
        assert!(compile(&scenario.initial_code()).is_ok());
        assert!(compile(&scenario.solution()).is_ok());
    }
}

#[test]
fn an_upload_that_compiles_replaces_the_running_program() {
    let mut running: Option<Sandbox> = None;
    assert!(upload_code(&mut running, GOOD).is_ok());
    assert_eq!(running.as_ref().expect("installed").source, GOOD);
    let newer = "fn tick() { }";
    assert!(upload_code(&mut running, newer).is_ok());
    assert_eq!(running.as_ref().expect("installed").source, newer);
}

#[test]
fn an_upload_that_does_not_compile_leaves_the_running_program() {
    let mut running: Option<Sandbox> = None;
    assert!(upload_code(&mut running, BAD).is_err());
    assert!(running.is_none());
    upload_code(&mut running, GOOD).expect("a good program");
    let error = upload_code(&mut running, BAD).err().expect("a bad program");
    assert!(!error.message.is_empty());
    assert_eq!(running.as_ref().expect("still installed").source, GOOD);
}

#[test]
fn installing_hands_the_error_on() {
    let mut running: Option<Sandbox> = None;
    let made = compile(BAD);
    let message = made.as_ref().err().expect("a bad program").message.clone();
    let accepted = install(&mut running, made);
    assert_eq!(accepted.err().expect("rejected").message, message);
    assert!(running.is_none());
    assert!(install(&mut running, compile(GOOD)).is_ok());
    assert_eq!(running.expect("installed").source, GOOD);
}

#[test]
fn a_ship_with_a_bad_program_is_not_created() {
    let mut world = World::new();
    world.add_ship(ENEMY_TEAM, ShipClass::Fighter, Vec2::new(1, 1), Vec2::new(0, 0), 0);
    let created = create_programmed(
        &mut world,
        PLAYER_TEAM,
        ShipClass::Fighter,
        Vec2::new(5, 5),
        Vec2::new(0, 0),
        0,
        compile(BAD),
    );
    assert!(created.is_err());
    assert_eq!(world.ship_count(), 1);
    assert_eq!(world.next_handle, 1);
    let created = create_programmed(
        &mut world,
        PLAYER_TEAM,
        ShipClass::Fighter,
        Vec2::new(5, 5),
        Vec2::new(6, 6),
        7,
        compile(GOOD),
    );
    let (handle, sandbox) = created.ok().expect("created");
    assert_eq!(handle, ShipHandle(1));
    assert_eq!(sandbox.source, GOOD);
    assert_eq!(world.ship_count(), 2);
    let ship = world.ship(handle).expect("alive");
    assert_eq!(ship.team, PLAYER_TEAM);
    assert_eq!(ship.position, Vec2::new(5, 5));
    assert_eq!(ship.velocity, Vec2::new(6, 6));
    assert_eq!(ship.heading, 7);
}

#[test]
fn a_call_that_returns_gets_what_it_asked_for() {
    let wanted = asked(100_000, -3, true);
    assert_controls(&controls_of(&TickOutcome::Completed(wanted)), &wanted);
}

#[test]
fn a_call_that_faults_gets_nothing() {
    assert_controls(&controls_of(&TickOutcome::Faulted), &idle());
}

#[test]
fn a_fault_silences_one_ship_and_no_other() {
    let mut world = World::new();
    let mut handles = Vec::new();
    for i in 0..4 {
        handles.push(world.add_ship(i, ShipClass::Fighter, Vec2::new(i, 0), Vec2::new(0, 0), 0));
    }
    let healthy: Vec<TickOutcome> =
        (0..4).map(|i| TickOutcome::Completed(asked(i + 1, i, i % 2 == 0))).collect();
    let mut faulty = healthy.clone();
    faulty[2] = TickOutcome::Faulted;
    let expected = plan_tick(&world, &healthy);
    let found = plan_tick(&world, &faulty);
    assert_eq!(found.len(), 4);
    for i in 0..4 {
        assert_eq!(found[i].ship, handles[i]);
        assert_eq!(expected[i].ship, handles[i]);
        if i == 2 {
            assert_controls(&found[i].controls, &idle());
        } else {
            assert_controls(&found[i].controls, &expected[i].controls);
            assert_controls(&found[i].controls, &asked(i as i32 + 1, i as i32, i % 2 == 0));
        }
    }
    let next_tick = plan_tick(&world, &healthy);
    assert_controls(&next_tick[2].controls, &asked(3, 2, true));
    assert_eq!(world.ship_count(), 4);
}

#[test]
fn an_empty_world_plans_nothing() {
    let world = World::new();
    assert!(plan_tick(&world, &Vec::new()).is_empty());
}

fn nested(levels: usize) -> String {
    format!("let x = {}1{};", "(".repeat(levels), ")".repeat(levels))
}

#[test]
fn a_program_may_nest_up_to_the_limit() {
    assert_eq!(oort::sandbox::MAX_EXPR_DEPTH, 32);
    assert_eq!(oort::sandbox::MAX_FUNCTION_EXPR_DEPTH, 16);
    assert!(compile(&nested(8)).is_ok());
    assert!(compile(&nested(64)).is_err());
}

#[test]
fn a_program_that_nests_without_end_is_rejected() {
    let error = compile(&nested(200_000)).err().expect("too deep");
    assert!(!error.message.is_empty());
    let unclosed = "(".repeat(200_000);
    assert!(compile(&unclosed).is_err());
    let mut running: Option<Sandbox> = None;
    upload_code(&mut running, GOOD).expect("a good program");
    assert!(upload_code(&mut running, &unclosed).is_err());
    assert_eq!(running.expect("still installed").source, GOOD);
}

#[test]
fn functions_may_nest_less_than_the_rest() {
    let inside = |levels: usize| format!("fn tick() {{ {} }}", nested(levels));
    assert!(compile(&inside(4)).is_ok());
    assert!(compile(&inside(32)).is_err());
}

#[test]
fn long_and_deep_texts_are_answered_not_followed_down() {
    let n = 200_000;
    let texts: Vec<String> = vec![
        "{".repeat(n),
        format!("{}{}", "{".repeat(n), "}".repeat(n)),
        format!("let x = {}1;", "-".repeat(n)),
        format!("let x = {}true;", "!".repeat(n)),
        format!("let x = {}1{};", "[".repeat(n), "]".repeat(n)),
        format!("let x = 1{};", " + 1".repeat(n)),
        format!("let x = a{};", ".b".repeat(n)),
        format!("let x = f{}1{};", "(f(".repeat(n), "))".repeat(n)),
        format!("{}{}", "if true { ".repeat(n), "}".repeat(n)),
        format!("{}{}", "fn f() { ".repeat(n), "}".repeat(n)),
        format!("let x = {}{};", "#{a: ".repeat(n), "}".repeat(n)),
        format!("let x = {}0{};", "if true { ".repeat(n), " } else { 0 }".repeat(n)),
        format!("let x = `{}`;", "${`".repeat(n)),
        format!("let x = {};", "|| ".repeat(n)),
        "x = ".repeat(n),
        "loop { ".repeat(n),
        format!("{};", "switch 1 { 1 => ".repeat(n)),
    ];
    for text in texts {
        let made = compile(&text);
        if let Ok(sandbox) = made {
            assert_eq!(sandbox.source, text);
        }
    }
}
