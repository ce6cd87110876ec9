//! The programs that the editor offers for each scenario: a starting point
//! and, for the tutorials, a solution. Only the front end reads them.

use vstd::prelude::*;
use crate::scenario::Scenario;

verus! {

/// What the editor shows on the opening screen.
pub const WELCOME_CODE: &'static str = "\
// Welcome to Oort.
// Select a scenario from the list in the top-right of the page.
// If you're new, start with \"tutorial01\".";

/// Starting point of the first tutorial.
pub const TUTORIAL01_CODE: &'static str = "\
// Tutorial 01
// Destroy the asteroid.

fn tick() {
    // Uncomment me, then press ctrl-Enter to upload the code.
    // api.fire_weapon();
}";

/// A program that solves the first tutorial.
pub const TUTORIAL01_SOLUTION: &'static str = "\
// Tutorial 01
// Destroy the asteroid.

fn tick() {
    // Uncomment me, then press ctrl-Enter to upload the code.
    api.fire_weapon();
}";

/// Starting point of the second tutorial.
pub const TUTORIAL02_CODE: &'static str = "\
// Tutorial 02
// Fly to the target circle and stop.

fn tick() {
    api.accelerate(vec2(100.0, 0.0));
}";

/// A program that solves the second tutorial.
pub const TUTORIAL02_SOLUTION: &'static str = "\
// Tutorial 02
// Fly to the target circle and stop.

fn tick() {
    let acc = 100.0;
    let x = api.position().x;
    let dx = target.x - x;
    let vx = api.velocity().x;
    let margin = 10.0;
    let t = abs(vx / acc);
    let pdx = (x + vx * t + 0.5 * -acc * t*t) - target.x;
    if pdx > -margin && pdx < margin {
        api.accelerate(vec2(-vx * 10, 0.0));
    } else if pdx < -margin {
        api.accelerate(vec2(acc, 0.0));
    } else if pdx > margin {
        api.accelerate(vec2(-acc, 0.0));
    }
}
";

/// Starting point of the third tutorial.
pub const TUTORIAL03_CODE: &'static str = "\
// Tutorial 03
// Fly to the target circle and stop. The target is in a random
// location given by the \"target\" variable.

fn tick() {
    api.accelerate(0.1 * (target - api.position()));
}";

/// A program that solves the third tutorial.
pub const TUTORIAL03_SOLUTION: &'static str = "\
// Tutorial 03
// Fly to the target circle and stop. The target is in a random
// location given by the \"target\" variable.

fn tick() {
    let dp = target - api.position();
    if dp.magnitude() < 50.0 {
        api.accelerate(api.velocity() * -10.0);
    } else {
        if api.velocity().magnitude() < 100.0 {
            api.accelerate(dp);
        }
    }
}";

/// Starting point of the fourth tutorial.
pub const TUTORIAL04_CODE: &'static str = "\
// Tutorial 04
// Destroy the asteroid. The target is in a random
// location given by the \"target\" variable.

fn tick() {
    api.accelerate(0.1 * (target - api.position()));
    api.fire_weapon();
}";

/// A program that solves the fourth tutorial.
pub const TUTORIAL04_SOLUTION: &'static str = "\
// Tutorial 04
// Destroy the asteroid. The target is in a random
// location given by the \"target\" variable.

fn turn(speed) {
    let acc = 10.0;
    let margin = 0.01;
    let av = api.angular_velocity();
    if av < speed - margin {
        api.torque(acc);
    } else if av > speed + margin {
        api.torque(-acc);
    }
}

fn normalize_heading(h) {
    while h < 0.0 {
        h += 2 * PI();
    }
    while h > 2 * PI() {
        h -= 2 * PI();
    }
    h
}

fn turn_to(target_heading) {
    let speed = 1.0;
    let margin = 0.1;
    let dh = (api.heading() - target_heading) % (2 * PI());
    if dh - margin > 0.0 {
        turn(-speed);
    } else if dh + margin < 0.0 {
        turn(speed);
    } else {
         turn(-dh);
    }
}

fn tick() {
    turn_to((target - api.position()).angle());
    api.fire_weapon();
}";

impl Scenario {
    /// The program that the editor starts with; empty where the scenario
    /// offers none.
    pub open spec fn initial_code_text(self) -> Seq<char> {
        match self {
            Scenario::Welcome => WELCOME_CODE@,
            Scenario::Tutorial01 => TUTORIAL01_CODE@,
            Scenario::Tutorial02 { .. } => TUTORIAL02_CODE@,
            Scenario::Tutorial03 { .. } => TUTORIAL03_CODE@,
            Scenario::Tutorial04 { .. } => TUTORIAL04_CODE@,
            _ => Seq::empty(),
        }
    }

    /// A program that solves the scenario; empty where none is offered.
    pub open spec fn solution_text(self) -> Seq<char> {
        match self {
            Scenario::Tutorial01 => TUTORIAL01_SOLUTION@,
            Scenario::Tutorial02 { .. } => TUTORIAL02_SOLUTION@,
            Scenario::Tutorial03 { .. } => TUTORIAL03_SOLUTION@,
            Scenario::Tutorial04 { .. } => TUTORIAL04_SOLUTION@,
            _ => Seq::empty(),
        }
    }

    /// The program that the editor starts with.
    pub fn initial_code(&self) -> (code: String)
        ensures
            code@ == self.initial_code_text(),
    {
        match self {
            Scenario::Welcome => WELCOME_CODE.to_owned(),
            Scenario::Tutorial01 => TUTORIAL01_CODE.to_owned(),
            Scenario::Tutorial02 { .. } => TUTORIAL02_CODE.to_owned(),
            Scenario::Tutorial03 { .. } => TUTORIAL03_CODE.to_owned(),
            Scenario::Tutorial04 { .. } => TUTORIAL04_CODE.to_owned(),
            _ => String::new(),
        }
    }

    /// A program that solves the scenario.
    pub fn solution(&self) -> (code: String)
        ensures
            code@ == self.solution_text(),
    {
        match self {
            Scenario::Tutorial01 => TUTORIAL01_SOLUTION.to_owned(),
            Scenario::Tutorial02 { .. } => TUTORIAL02_SOLUTION.to_owned(),
            Scenario::Tutorial03 { .. } => TUTORIAL03_SOLUTION.to_owned(),
            Scenario::Tutorial04 { .. } => TUTORIAL04_SOLUTION.to_owned(),
            _ => String::new(),
        }
    }

    /// The key under which the player's program for this scenario is kept.
    pub open spec fn storage_key_text(self) -> Seq<char> {
        "/code/"@ + self.name_text()
    }

    /// The key under which the player's program for this scenario is kept
    /// in the browser's storage.
    pub fn storage_key(&self) -> (key: String)
        ensures
            key@ == self.storage_key_text(),
    {
        let name: String = self.name();
        "/code/".to_owned().concat(name.as_str())
    }

    /// The program that the editor opens with: the one that the player
    /// saved, or the scenario's starting point where none was saved.
    pub fn editor_code(&self, saved: Option<String>) -> (code: String)
        ensures
            code@ == (match saved {
                Some(kept) => kept@,
                None => self.initial_code_text(),
            }),
    {
        match saved {
            Some(kept) => kept,
            None => self.initial_code(),
        }
    }
}

} // verus!
