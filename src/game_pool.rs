use vstd::prelude::*;

use crate::controllers::{controller_name, GameController};
use crate::jobs::{with_entry, without_id, ActiveJobs};
use crate::wire::{
    complete_payload_text, create_game_complete_message, json_is_document, json_string_literal,
    json_text, json_text_field, json_text_list, json_text_list_field,
    PayloadError,
};

verus! {

/// The player that takes a seat that no participant filled.
pub const DEFAULT_SEAT_PLAYER: &'static str = "AngryDiscardoBot";

/// The number of seats of every match.
pub const SEAT_COUNT: usize = 4;

/// Messages sent to the game pool for coordination.
pub enum GamePoolMessage {
    /// External command to start a new game.
    StartGame { match_id: String, players: Vec<String> },
    /// External command to clean up a game.
    GameFinished { match_id: String },
    /// A game's runner finished normally.
    GameComplete { match_id: String },
    /// A game's runner finished with an error.
    GameError { match_id: String, error: String },
    /// Shut down the whole pool.
    Shutdown,
}

/// Final status reported by a game's runner.
pub enum GameStatus {
    Finished,
    Error(String),
}

/// The player of seat `i`: the `i`-th participant, or the default player where
/// there are not that many.
pub open spec fn seat_player(players: Seq<Seq<char>>, i: int) -> Seq<char> {
    if i < players.len() {
        players[i]
    } else {
        DEFAULT_SEAT_PLAYER@
    }
}

/// The views of a list of names.
pub open spec fn names_view(v: Seq<String>) -> Seq<Seq<char>> {
    v.map_values(|s: String| s@)
}

/// `controllers` seats `players` in order, the default player filling the
/// seats left over.
pub open spec fn seats_of(players: Seq<Seq<char>>, controllers: Seq<GameController>) -> bool {
    &&& controllers.len() == SEAT_COUNT
    &&& forall|i: int|
        0 <= i < SEAT_COUNT ==> (#[trigger] controllers[i]) is Embedded && controller_name(
            controllers[i],
        ) == seat_player(players, i)
}

/// The four seats of a match: the given players in order, then the default
/// player for each seat left. Players past the fourth take no seat.
pub fn seat_controllers(players: &Vec<String>) -> (r: Vec<GameController>)
    ensures
        seats_of(names_view(players@), r@),
{
    let mut r: Vec<GameController> = Vec::new();
    let mut i: usize = 0;
    while i < SEAT_COUNT
        invariant
            i <= SEAT_COUNT,
            r@.len() == i,
            forall|k: int|
                0 <= k < i ==> (#[trigger] r@[k]) is Embedded && controller_name(r@[k])
                    == seat_player(names_view(players@), k),
        decreases SEAT_COUNT - i,
    {
        let name = if i < players.len() {
            players[i].clone()
        } else {
            String::from_str(DEFAULT_SEAT_PLAYER)
        };
        r.push(GameController::Embedded(name));
        i = i + 1;
    }
    r
}

/// The message by which a runner's final status reaches the pool.
pub fn status_message(match_id: String, status: GameStatus) -> (r: GamePoolMessage)
    ensures
        match status {
            GameStatus::Finished => r matches GamePoolMessage::GameComplete { match_id: m } && m
                == match_id,
            GameStatus::Error(e) => r matches GamePoolMessage::GameError { match_id: m, error: x }
                && m == match_id && x == e,
        },
{
    match status {
        GameStatus::Finished => GamePoolMessage::GameComplete { match_id },
        GameStatus::Error(error) => GamePoolMessage::GameError { match_id, error },
    }
}

/// The match id and players that the read fields of a start message give:
/// present only where the id is a text and the players are a list of texts.
pub open spec fn start_fields_spec(
    match_id: Option<Seq<char>>,
    players: Option<Seq<Option<Seq<char>>>>,
) -> Option<(Seq<char>, Seq<Seq<char>>)> {
    match (match_id, players) {
        (Some(id), Some(items)) => if forall|i: int| 0 <= i < items.len() ==> (#[trigger] items[i]) is Some {
            Some((id, items.map_values(|p: Option<Seq<char>>| p->Some_0)))
        } else {
            None
        },
        _ => None,
    }
}

/// The start command that a broker message's bytes carry, where they carry
/// one: a JSON document whose `match_id` is a text and whose `players` is a
/// list of texts.
pub open spec fn start_message_of(data: Seq<u8>) -> Option<(Seq<char>, Seq<Seq<char>>)> {
    start_fields_spec(
        json_text_field(data, "match_id"@),
        json_text_list_field(data, "players"@),
    )
}

/// Builds the start command from the fields read out of a broker message:
/// `None` unless the id is a text and every player is a text.
pub fn start_message_from_fields(
    match_id: Option<String>,
    players: Option<Vec<Option<String>>>,
) -> (r: Option<GamePoolMessage>)
    ensures
        match start_fields_spec(match_id.deep_view(), players.deep_view()) {
            Some((id, ps)) => r matches Some(GamePoolMessage::StartGame { match_id: m, players: out })
                && m@ == id && names_view(out@) == ps,
            None => r is None,
        },
{
    let ghost id_view = match_id.deep_view();
    let ghost players_view = players.deep_view();
    let id = match match_id {
        Some(s) => s,
        None => {
            return None;
        },
    };
    let ps = match players {
        Some(ps) => ps,
        None => {
            return None;
        },
    };
    let ghost src = players_view->Some_0;
    assert(src == ps.deep_view());
    let mut out: Vec<String> = Vec::new();
    let mut i: usize = 0;
    while i < ps.len()
        invariant
            i <= ps@.len(),
            src == ps.deep_view(),
            id_view == Some(id@),
            players_view == Some(src),
            id_view == match_id.deep_view(),
            players_view == players.deep_view(),
            out@.len() == i,
            forall|k: int| 0 <= k < i ==> (#[trigger] src[k]) is Some,
            forall|k: int| 0 <= k < i ==> #[trigger] out@[k]@ == src[k]->Some_0,
        decreases ps@.len() - i,
    {
        proof {
            assert(src[i as int] == ps@[i as int].deep_view());
        }
        match &ps[i] {
            Some(n) => {
                out.push(n.clone());
            },
            None => {
                assert(!(src[i as int] is Some));
                return None;
            },
        }
        i = i + 1;
    }
    proof {
        assert(names_view(out@) =~= src.map_values(|p: Option<Seq<char>>| p->Some_0));
    }
    Some(GamePoolMessage::StartGame { match_id: id, players: out })
}

/// Reads a start command out of a broker message's bytes: `NotJson` where
/// they are not a JSON document, `Malformed` where the document lacks a text
/// `match_id` or a `players` list of texts.
pub fn decode_start_message(data: &[u8]) -> (r: Result<GamePoolMessage, PayloadError>)
    ensures
        !json_is_document(data@) ==> r matches Err(PayloadError::NotJson),
        json_is_document(data@) ==> match start_message_of(data@) {
            Some((id, ps)) => r matches Ok(GamePoolMessage::StartGame { match_id: m, players: out })
                && m@ == id && names_view(out@) == ps,
            None => r matches Err(PayloadError::Malformed),
        },
{
    if !crate::wire::is_json_document(data) {
        return Err(PayloadError::NotJson);
    }
    let id = json_text(data, "match_id");
    let players = json_text_list(data, "players");
    match start_message_from_fields(id, players) {
        Some(msg) => Ok(msg),
        None => Err(PayloadError::Malformed),
    }
}

/// What the pool's driver is to do after a message.
pub enum PoolAction<H> {
    /// Start a runner for a match with these seats, then register its handle.
    Launch { match_id: String, controllers: Vec<GameController> },
    /// Cancel this job's handle, where the job was tracked.
    Cancel(Option<H>),
    /// Publish the completion of a match. `error` is the runner's error, where
    /// it failed; `released` is the job's handle, where it was tracked.
    Publish {
        match_id: String,
        payload: String,
        error: Option<String>,
        released: Option<H>,
    },
    /// Cancel every one of these jobs and end the loop.
    Stop(Vec<(String, H)>),
    /// The pool has stopped: the message is dropped.
    Ignore,
}

/// The job pool's bookkeeping: the jobs in flight, and whether the pool still
/// takes messages.
pub struct GamePool<H> {
    jobs: ActiveJobs<H>,
    running: bool,
}

/// `payload` is the completion event of `match_id`.
pub open spec fn completion_payload_of(match_id: Seq<char>, payload: String) -> bool {
    payload@ == complete_payload_text(json_string_literal(match_id))
}

impl<H> GamePool<H> {
    /// The jobs in flight, each as its match id and its handle.
    pub closed spec fn active(&self) -> Seq<(Seq<char>, H)> {
        self.jobs@
    }

    /// Whether the pool still takes messages.
    pub closed spec fn is_running(&self) -> bool {
        self.running
    }

    /// The pool's invariant: no match id is tracked twice.
    pub closed spec fn wf(&self) -> bool {
        self.jobs.wf()
    }

    /// A running pool with no jobs.
    pub fn new() -> (r: Self)
        ensures
            r.wf(),
            r.is_running(),
            r.active() == Seq::<(Seq<char>, H)>::empty(),
    {
        GamePool { jobs: ActiveJobs::new(), running: true }
    }

    /// Whether the pool still takes messages.
    pub fn running(&self) -> (r: bool)
        ensures
            r == self.is_running(),
    {
        self.running
    }

    /// The number of jobs in flight.
    pub fn active_count(&self) -> (r: usize)
        ensures
            r == self.active().len(),
    {
        self.jobs.len()
    }

    /// Tracks the runner just launched for `match_id`. A job tracked under that
    /// id before is dropped from the table, and its handle returned.
    pub fn register(&mut self, match_id: String, handle: H) -> (r: Option<H>)
        requires
            old(self).wf(),
        ensures
            final(self).wf(),
            final(self).is_running() == old(self).is_running(),
            with_entry(old(self).active(), match_id@, handle, final(self).active(), r),
    {
        self.jobs.insert(match_id, handle)
    }

    /// Handles one mailbox message.
    ///
    /// A stopped pool drops every message. A running one: on `StartGame` asks
    /// for a runner with the padded seats; on `GameFinished` drops the job and
    /// asks to cancel it; on `GameComplete` and `GameError` drops the job and
    /// asks to publish its completion; on `Shutdown` drops every job, asks to
    /// cancel them all, and stops.
    pub fn handle(&mut self, msg: GamePoolMessage) -> (r: PoolAction<H>)
        requires
            old(self).wf(),
        ensures
            final(self).wf(),
            !old(self).is_running() ==> {
                &&& r is Ignore
                &&& !final(self).is_running()
                &&& final(self).active() == old(self).active()
            },
            old(self).is_running() ==> match msg {
                GamePoolMessage::StartGame { match_id, players } => {
                    &&& final(self).is_running()
                    &&& final(self).active() == old(self).active()
                    &&& r matches PoolAction::Launch { match_id: m, controllers: cs } && m
                        == match_id && seats_of(names_view(players@), cs@)
                },
                GamePoolMessage::GameFinished { match_id } => {
                    &&& final(self).is_running()
                    &&& r matches PoolAction::Cancel(taken) && without_id(
                        old(self).active(),
                        match_id@,
                        final(self).active(),
                        taken,
                    )
                },
                GamePoolMessage::GameComplete { match_id } => {
                    &&& final(self).is_running()
                    &&& r matches PoolAction::Publish { match_id: m, payload, error, released } && m
                        == match_id && error is None && completion_payload_of(match_id@, payload)
                        && without_id(old(self).active(), match_id@, final(self).active(), released)
                },
                GamePoolMessage::GameError { match_id, error: e } => {
                    &&& final(self).is_running()
                    &&& r matches PoolAction::Publish { match_id: m, payload, error, released } && m
                        == match_id && error == Some(e) && completion_payload_of(match_id@, payload)
                        && without_id(old(self).active(), match_id@, final(self).active(), released)
                },
                GamePoolMessage::Shutdown => {
                    &&& !final(self).is_running()
                    &&& final(self).active() == Seq::<(Seq<char>, H)>::empty()
                    &&& r matches PoolAction::Stop(all) && all@.map_values(
                        |e: (String, H)| (e.0@, e.1),
                    ) == old(self).active()
                },
            },
    {
        if !self.running {
            return PoolAction::Ignore;
        }
        match msg {
            GamePoolMessage::StartGame { match_id, players } => {
                let controllers = seat_controllers(&players);
                PoolAction::Launch { match_id, controllers }
            },
            GamePoolMessage::GameFinished { match_id } => {
                let taken = self.jobs.remove(&match_id);
                PoolAction::Cancel(taken)
            },
            GamePoolMessage::GameComplete { match_id } => {
                let payload = create_game_complete_message(match_id.as_str());
                let released = self.jobs.remove(&match_id);
                PoolAction::Publish { match_id, payload, error: None, released }
            },
            GamePoolMessage::GameError { match_id, error } => {
                let payload = create_game_complete_message(match_id.as_str());
                let released = self.jobs.remove(&match_id);
                PoolAction::Publish { match_id, payload, error: Some(error), released }
            },
            GamePoolMessage::Shutdown => {
                let all = self.jobs.drain();
                self.running = false;
                PoolAction::Stop(all)
            },
        }
    }
}

/// A pool never tracks two jobs under one match id.
pub proof fn lemma_one_entry_per_id<H>(pool: GamePool<H>, id: Seq<char>)
    requires
        pool.wf(),
    ensures
        forall|i: int, j: int|
            0 <= i < pool.active().len() && 0 <= j < pool.active().len() && (#[trigger] pool.active()[i]).0
                == id && (#[trigger] pool.active()[j]).0 == id ==> i == j,
{
}

/// Once a finish, completion or error message for a match id has been handled,
/// no job is tracked under that id.
pub proof fn lemma_no_entry_after_cleanup<H>(
    before: GamePool<H>,
    after: GamePool<H>,
    id: Seq<char>,
    taken: Option<H>,
)
    requires
        before.wf(),
        without_id(before.active(), id, after.active(), taken),
    ensures
        forall|i: int| 0 <= i < after.active().len() ==> (#[trigger] after.active()[i]).0 != id,
{
    let b = before.active();
    let a = after.active();
    if let Some(h) = taken {
        let k = choose|k: int| 0 <= k < b.len() && b[k] == (id, h) && a == b.remove(k);
        assert forall|i: int| 0 <= i < a.len() implies (#[trigger] a[i]).0 != id by {
            if i < k {
                assert(a[i] == b[i]);
                assert(b[i].0 != b[k].0);
            } else {
                assert(a[i] == b[i + 1]);
                assert(b[i + 1].0 != b[k].0);
            }
        }
    }
}

/// Cleaning up a match id that no job is tracked under takes nothing and
/// leaves the table as it was.
pub proof fn lemma_cleanup_of_untracked_id<H>(
    before: GamePool<H>,
    after: GamePool<H>,
    id: Seq<char>,
    taken: Option<H>,
)
    requires
        forall|i: int| 0 <= i < before.active().len() ==> (#[trigger] before.active()[i]).0 != id,
        without_id(before.active(), id, after.active(), taken),
    ensures
        taken is None,
        after.active() == before.active(),
{
    if let Some(h) = taken {
        let k = choose|k: int|
            0 <= k < before.active().len() && before.active()[k] == (id, h) && after.active()
                == before.active().remove(k);
        assert(before.active()[k].0 == id);
    }
}

} // verus!
