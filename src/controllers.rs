use vstd::prelude::*;

verus! {

/// Who plays a seat of a match.
pub enum GameController {
    /// A controller built into the engine, under the given name.
    Embedded(String),
    /// A controller reached over the network.
    External,
}

/// The name under which a seat's controller is handed to the engine.
pub open spec fn controller_name(c: GameController) -> Seq<char> {
    match c {
        GameController::Embedded(name) => name@,
        GameController::External => "External"@,
    }
}

impl GameController {
    /// The engine-facing name of this controller.
    pub fn to_string(&self) -> (r: String)
        ensures
            r@ == controller_name(*self),
    {
        match self {
            GameController::Embedded(name) => name.clone(),
            GameController::External => String::from_str("External"),
        }
    }
}

} // verus!
