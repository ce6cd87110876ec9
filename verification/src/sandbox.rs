//! The sandbox: what a ship's program may ask for, and what becomes of a
//! program that fails.
//!
//! Programs are written in the Rhai scripting language. The crate compiles
//! them; the driver runs them, one call per ship and tick, and reports what
//! each call asked for or that it faulted. A fault silences the ship for
//! that tick and touches nothing else.

use vstd::prelude::*;
use crate::vec2::Vec2;
use crate::world::{Ship, ShipClass, ShipHandle, World};

verus! {

/// How deep expressions may nest in a program, outside functions. The
/// parser descends one level of its own stack for each level of nesting, so
/// the limit is what keeps a text from exhausting the stack; it is the one
/// that the scripting engine itself picks for its most cautious build.
pub const MAX_EXPR_DEPTH: usize = 32;

/// How deep expressions may nest inside a function of a program.
pub const MAX_FUNCTION_EXPR_DEPTH: usize = 16;

/// What a program asks of its ship in one tick.
#[derive(Clone, Copy, Debug)]
pub struct Controls {
    pub acceleration: Vec2,
    pub torque: i32,
    pub fire: bool,
}

/// How one call of a program's tick function ended.
#[derive(Clone, Copy, Debug)]
pub enum TickOutcome {
    /// The call returned, having asked for these controls.
    Completed(Controls),
    /// The call raised a fault or ran out of its budget.
    Faulted,
}

/// The controls that the driver applies to one ship in one tick.
#[derive(Clone, Copy, Debug)]
pub struct Intent {
    pub ship: ShipHandle,
    pub controls: Controls,
}

/// Why a program was not accepted.
#[derive(Debug)]
pub struct CompileError {
    /// The scripting engine's words.
    pub message: String,
}

/// A compiled program together with its source.
pub struct Sandbox {
    pub source: String,
    pub program: rhai::AST,
}

/// A compiled Rhai program, carried as it is.
#[verifier::external_type_specification]
#[verifier::external_body]
pub struct ExAst(rhai::AST);

/// What the Rhai parser says of a text that it rejects, carried as it is.
#[verifier::external_type_specification]
#[verifier::external_body]
pub struct ExParseError(rhai::ParseError);

/// Compiles a text with `rhai::Engine::compile`, on an engine fresh from
/// `rhai::Engine::new` whose limits on the nesting of expressions were set
/// with `rhai::Engine::set_max_expr_depths`. The limits are the parser's
/// only guard against a text that nests without end: zero would lift them
/// and a large number would never be reached, so both are left out and no
/// limit may pass the library's own. Nothing is claimed of the outcome.
/// Whether a text is accepted depends on the text and on the limits and,
/// where two function definitions of the text fall together in the engine's
/// table of hashes, on the seed that the engine's hasher drew in this
/// process.
#[verifier::external_body]
fn engine_compile(source: &str, depth: usize, function_depth: usize) -> (parsed: Result<
    rhai::AST,
    rhai::ParseError,
>)
    requires
        0 < depth <= MAX_EXPR_DEPTH,
        0 < function_depth <= MAX_FUNCTION_EXPR_DEPTH,
{
    let mut engine = rhai::Engine::new();
    engine.set_max_expr_depths(depth, function_depth);
    engine.compile(source)
}

/// The parser's message for a rejected text, as its `Display` writes it.
/// Nothing is claimed of the words.
#[verifier::external_body]
fn engine_message(error: &rhai::ParseError) -> (message: String) {
    error.to_string()
}

/// No controls at all: what a silent ship contributes.
pub open spec fn idle_controls() -> Controls {
    Controls { acceleration: Vec2 { x: 0, y: 0 }, torque: 0, fire: false }
}

/// The controls that come of a call: what it asked for if it returned, and
/// nothing if it faulted.
pub open spec fn effective_controls(outcome: TickOutcome) -> Controls {
    match outcome {
        TickOutcome::Completed(controls) => controls,
        TickOutcome::Faulted => idle_controls(),
    }
}

/// The intents of one tick: for every ship, in the world's order, the
/// controls that come of its program's call.
pub open spec fn intents_of(ships: Seq<Ship>, outcomes: Seq<TickOutcome>) -> Seq<Intent> {
    Seq::new(
        ships.len(),
        |i: int| Intent { ship: ships[i].handle, controls: effective_controls(outcomes[i]) },
    )
}

/// The controls that come of one call.
pub fn controls_of(outcome: &TickOutcome) -> (controls: Controls)
    ensures
        controls == effective_controls(*outcome),
{
    match outcome {
        TickOutcome::Completed(controls) => *controls,
        TickOutcome::Faulted => Controls {
            acceleration: Vec2 { x: 0, y: 0 },
            torque: 0,
            fire: false,
        },
    }
}

/// Turns the outcomes of one tick's calls, one per ship in the world's
/// order, into the intents that the driver applies.
pub fn plan_tick(world: &World, outcomes: &Vec<TickOutcome>) -> (intents: Vec<Intent>)
    requires
        outcomes@.len() == world.ships@.len(),
    ensures
        intents@ == intents_of(world.ships@, outcomes@),
{
    let mut intents: Vec<Intent> = Vec::new();
    let mut i: usize = 0;
    while i < world.ships.len()
        invariant
            i <= world.ships@.len(),
            outcomes@.len() == world.ships@.len(),
            intents@.len() == i,
            forall|k: int|
                0 <= k < i ==> #[trigger] intents@[k] == (Intent {
                    ship: world.ships@[k].handle,
                    controls: effective_controls(outcomes@[k]),
                }),
        decreases world.ships@.len() - i,
    {
        intents.push(Intent { ship: world.ships[i].handle, controls: controls_of(&outcomes[i]) });
        i += 1;
    }
    assert(intents@ =~= intents_of(world.ships@, outcomes@));
    intents
}

/// A fault is isolated: where the call of one ship faults instead of
/// returning, that ship's intent is idle, and the intent of every other
/// ship is what it would have been.
pub proof fn lemma_fault_is_isolated(ships: Seq<Ship>, outcomes: Seq<TickOutcome>, faulty: int)
    requires
        outcomes.len() == ships.len(),
        0 <= faulty < ships.len(),
    ensures
        intents_of(ships, outcomes.update(faulty, TickOutcome::Faulted))[faulty].controls
            == idle_controls(),
        forall|i: int|
            0 <= i < ships.len() && i != faulty ==> #[trigger] intents_of(
                ships,
                outcomes.update(faulty, TickOutcome::Faulted),
            )[i] == intents_of(ships, outcomes)[i],
{
}

/// What becomes of the text that the engine was given: the program with its
/// source where the engine accepted it, and the engine's message where it
/// did not.
pub fn sandbox_from(source: &str, parsed: Result<rhai::AST, rhai::ParseError>) -> (made: Result<
    Sandbox,
    CompileError,
>)
    ensures
        made.is_ok() == parsed.is_ok(),
        made matches Ok(sandbox) ==> sandbox.source@ == source@ && Ok::<
            rhai::AST,
            rhai::ParseError,
        >(sandbox.program) == parsed,
{
    match parsed {
        Ok(program) => Ok(Sandbox { source: source.to_owned(), program }),
        Err(error) => Err(CompileError { message: engine_message(&error) }),
    }
}

/// Compiles a program, with the same limits on nesting in every build: a
/// text that nests deeper is rejected, not followed. The
/// scripting engine decides whether the text is a program; what is made of
/// its answer is what `sandbox_from` states.
pub fn compile(source: &str) -> (made: Result<Sandbox, CompileError>)
    ensures
        made matches Ok(sandbox) ==> sandbox.source@ == source@,
{
    sandbox_from(source, engine_compile(source, MAX_EXPR_DEPTH, MAX_FUNCTION_EXPR_DEPTH))
}

/// Puts a newly compiled program in the place of the running one. A
/// program that did not compile leaves the running one where it is, and its
/// error goes to the caller.
pub fn install(running: &mut Option<Sandbox>, made: Result<Sandbox, CompileError>) -> (accepted:
    Result<(), CompileError>)
    ensures
        accepted.is_ok() == made.is_ok(),
        made matches Ok(sandbox) ==> *final(running) == Some(sandbox),
        made matches Err(error) ==> *final(running) == *old(running) && accepted == Err::<
            (),
            CompileError,
        >(error),
{
    match made {
        Ok(sandbox) => {
            *running = Some(sandbox);
            Ok(())
        },
        Err(error) => Err(error),
    }
}

/// Takes a program from the player: it is compiled, and replaces the running
/// one if it compiles. If it does not, the running one stays as it is and
/// the error goes to the caller.
pub fn upload_code(running: &mut Option<Sandbox>, code: &str) -> (accepted: Result<
    (),
    CompileError,
>)
    ensures
        accepted.is_ok() ==> ((*final(running)) matches Some(sandbox) && sandbox.source@ == code@),
        accepted.is_err() ==> *final(running) == *old(running),
{
    install(running, compile(code))
}

/// Creates a ship that runs a program. A program that does not compile
/// creates nothing: the world stays as it is and the error goes to the
/// caller.
pub fn create_programmed(
    world: &mut World,
    team: i32,
    class: ShipClass,
    position: Vec2,
    velocity: Vec2,
    heading: i32,
    made: Result<Sandbox, CompileError>,
) -> (created: Result<(ShipHandle, Sandbox), CompileError>)
    requires
        old(world).wf(),
        old(world).has_room(1),
    ensures
        final(world).wf(),
        created.is_ok() == made.is_ok(),
        made matches Err(error) ==> *final(world) == *old(world) && created == Err::<
            (ShipHandle, Sandbox),
            CompileError,
        >(error),
        made matches Ok(sandbox) ==> {
            &&& created == Ok::<(ShipHandle, Sandbox), CompileError>(
                (ShipHandle(old(world).next_handle), sandbox),
            )
            &&& final(world).ships@ == old(world).ships@.push(
                Ship {
                    handle: ShipHandle(old(world).next_handle),
                    team,
                    class,
                    position,
                    velocity,
                    heading,
                    angular_velocity: 0,
                    cooldown: 0,
                    target: None,
                },
            )
            &&& final(world).next_handle == old(world).next_handle + 1
            &&& final(world).first_handle == old(world).first_handle
            &&& final(world).bullets@ == old(world).bullets@
            &&& final(world).walls@ == old(world).walls@
            &&& final(world).tick == old(world).tick
            &&& final(world).collided == old(world).collided
        },
{
    match made {
        Ok(sandbox) => {
            let handle = world.add_ship(team, class, position, velocity, heading);
            Ok((handle, sandbox))
        },
        Err(error) => Err(error),
    }
}

} // verus!
