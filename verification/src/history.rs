//! The conversation with the narrator: an ordered record of turns.
//!
//! A history only ever grows, and only by whole exchanges: the prompt that
//! went out, as a turn of the user, followed by the answer that came back,
//! as a turn of the assistant. So it always has an even number of turns that
//! alternate, beginning with the user.

use vstd::prelude::*;
use vstd::string::*;

verus! {

/// Who speaks in a turn.
#[derive(Clone, Copy, Debug, PartialEq, Eq, Structural)]
pub enum Role {
    User,
    Assistant,
}

/// One message of the conversation.
#[derive(Debug)]
pub struct Turn {
    pub role: Role,
    pub content: String,
}

/// What a turn says, with a text in place of the string.
pub struct TurnModel {
    pub role: Role,
    pub content: Seq<char>,
}

impl View for Turn {
    type V = TurnModel;

    open spec fn view(&self) -> TurnModel {
        TurnModel { role: self.role, content: self.content@ }
    }
}

/// What a sequence of turns says.
pub open spec fn turn_models(turns: Seq<Turn>) -> Seq<TurnModel> {
    turns.map_values(|turn: Turn| turn@)
}

/// The role that speaks at place `place` of a history.
pub open spec fn role_at(place: int) -> Role {
    if place % 2 == 0 {
        Role::User
    } else {
        Role::Assistant
    }
}

/// Whether the roles of `turns` alternate, beginning with the user.
pub open spec fn alternates(turns: Seq<TurnModel>) -> bool {
    forall|place: int| 0 <= place < turns.len() ==> (#[trigger] turns[place]).role == role_at(place)
}

/// Whether `turns` is made of whole exchanges: an even number of turns that
/// alternate, beginning with the user.
pub open spec fn paired(turns: Seq<TurnModel>) -> bool {
    turns.len() % 2 == 0 && alternates(turns)
}

/// The two turns of one exchange.
pub open spec fn exchange(prompt: Seq<char>, response: Seq<char>) -> Seq<TurnModel> {
    seq![
        TurnModel { role: Role::User, content: prompt },
        TurnModel { role: Role::Assistant, content: response },
    ]
}

/// The history that `exchanges` make when they are added to `start`, in
/// order. Each exchange is a pair of prompt and response.
pub open spec fn after_exchanges(start: Seq<TurnModel>, exchanges: Seq<(Seq<char>, Seq<char>)>) -> Seq<TurnModel>
    decreases exchanges.len(),
{
    if exchanges.len() == 0 {
        start
    } else {
        after_exchanges(start, exchanges.drop_last()) + exchange(exchanges.last().0, exchanges.last().1)
    }
}

/// One more exchange keeps a history made of whole exchanges.
pub proof fn lemma_exchange_keeps_pairs(turns: Seq<TurnModel>, prompt: Seq<char>, response: Seq<char>)
    requires
        paired(turns),
    ensures
        paired(turns + exchange(prompt, response)),
{
}

/// After any number of exchanges, a history that began empty, or made of
/// whole exchanges, has an even number of turns that alternate, beginning
/// with the user.
pub proof fn lemma_exchanges_keep_pairs(start: Seq<TurnModel>, exchanges: Seq<(Seq<char>, Seq<char>)>)
    requires
        paired(start),
    ensures
        paired(after_exchanges(start, exchanges)),
        after_exchanges(start, exchanges).len() == start.len() + 2 * exchanges.len(),
    decreases exchanges.len(),
{
    if exchanges.len() > 0 {
        lemma_exchanges_keep_pairs(start, exchanges.drop_last());
        lemma_exchange_keeps_pairs(
            after_exchanges(start, exchanges.drop_last()),
            exchanges.last().0,
            exchanges.last().1,
        );
    }
}

/// What stands for a message of the narrator that holds no text.
pub const NO_READABLE_TEXT: &'static str = "No readable text content available";

/// Returns the text of a message of the narrator, given the text that its
/// first part holds, if that part is text at all: the text itself, or a fixed
/// remark in its place.
pub fn extract_text_from_message(first_text: Option<String>) -> (text: String)
    ensures
        text@ == match first_text {
            Some(held) => held@,
            None => NO_READABLE_TEXT@,
        },
{
    match first_text {
        Some(held) => held,
        None => String::from_str(NO_READABLE_TEXT),
    }
}

fn copy_turn(turn: &Turn) -> (copy: Turn)
    ensures
        copy@ == turn@,
{
    Turn { role: turn.role, content: turn.content.clone() }
}

/// Copies a sequence of turns.
pub fn copy_turns(turns: &Vec<Turn>) -> (copy: Vec<Turn>)
    ensures
        turn_models(copy@) == turn_models(turns@),
{
    let mut copy: Vec<Turn> = Vec::new();
    let mut at: usize = 0;
    while at < turns.len()
        invariant
            at <= turns@.len(),
            turn_models(copy@) == turn_models(turns@).take(at as int),
        decreases turns@.len() - at,
    {
        let ghost before = turn_models(copy@);
        copy.push(copy_turn(&turns[at]));
        assert(turn_models(copy@) =~= before.push(turns@[at as int]@));
        at = at + 1;
    }
    copy
}

/// Tells whether `turns` is made of whole exchanges.
pub fn is_paired(turns: &Vec<Turn>) -> (whole: bool)
    ensures
        whole == paired(turn_models(turns@)),
{
    if turns.len() % 2 != 0 {
        return false;
    }
    let mut at: usize = 0;
    while at < turns.len()
        invariant
            at <= turns@.len(),
            forall|place: int| 0 <= place < at ==> (#[trigger] turn_models(turns@)[place]).role == role_at(place),
        decreases turns@.len() - at,
    {
        let expected: Role = if at % 2 == 0 {
            Role::User
        } else {
            Role::Assistant
        };
        if turns[at].role != expected {
            assert(turn_models(turns@)[at as int].role != role_at(at as int));
            return false;
        }
        at = at + 1;
    }
    true
}

fn push_exchange(turns: &mut Vec<Turn>, prompt: String, response: String)
    ensures
        turn_models(final(turns)@) == turn_models(old(turns)@) + exchange(prompt@, response@),
{
    turns.push(Turn { role: Role::User, content: prompt });
    turns.push(Turn { role: Role::Assistant, content: response });
}

/// The history of a session.
#[derive(Debug)]
pub struct History {
    turns: Vec<Turn>,
}

impl View for History {
    type V = Seq<TurnModel>;

    closed spec fn view(&self) -> Seq<TurnModel> {
        turn_models(self.turns@)
    }
}

impl History {
    #[verifier::type_invariant]
    spec fn whole_exchanges(self) -> bool {
        paired(turn_models(self.turns@))
    }

    /// Returns the empty history.
    pub fn new() -> (history: History)
        ensures
            history@ == Seq::<TurnModel>::empty(),
    {
        let history = History { turns: Vec::new() };
        history
    }

    /// Makes a history of `turns`, which is possible if and only if they are
    /// whole exchanges.
    pub fn from_turns(turns: Vec<Turn>) -> (history: Option<History>)
        ensures
            match history {
                Some(made) => paired(turn_models(turns@)) && made@ == turn_models(turns@),
                None => !paired(turn_models(turns@)),
            },
    {
        if is_paired(&turns) {
            Some(History { turns })
        } else {
            None
        }
    }

    /// Returns the turns of the history. They are whole exchanges.
    pub fn turns(&self) -> (turns: &Vec<Turn>)
        ensures
            turn_models(turns@) == self@,
            paired(self@),
    {
        proof {
            use_type_invariant(self);
        }
        &self.turns
    }

    /// Returns the number of turns, which is even.
    pub fn len(&self) -> (len: usize)
        ensures
            len == self@.len(),
            len % 2 == 0,
    {
        proof {
            use_type_invariant(self);
        }
        self.turns.len()
    }

    /// Tells whether nothing has been said yet.
    pub fn is_empty(&self) -> (empty: bool)
        ensures
            empty == (self@.len() == 0),
    {
        self.turns.len() == 0
    }

    /// Returns a copy of the turns, to be sent along with a prompt.
    pub fn snapshot(&self) -> (turns: Vec<Turn>)
        ensures
            turn_models(turns@) == self@,
    {
        copy_turns(&self.turns)
    }

    /// Returns a second history that says what this one says.
    pub fn duplicate(&self) -> (copy: History)
        ensures
            copy@ == self@,
    {
        proof {
            use_type_invariant(self);
        }
        History { turns: copy_turns(&self.turns) }
    }

    /// Adds one whole exchange: the prompt as a turn of the user, then the
    /// response as a turn of the assistant.
    pub fn record_exchange(&mut self, prompt: String, response: String)
        ensures
            final(self)@ == old(self)@ + exchange(prompt@, response@),
            paired(final(self)@),
    {
        proof {
            use_type_invariant(&*self);
            lemma_exchange_keeps_pairs(self@, prompt@, response@);
        }
        let mut turns: Vec<Turn> = Vec::new();
        core::mem::swap(&mut self.turns, &mut turns);
        push_exchange(&mut turns, prompt, response);
        core::mem::swap(&mut self.turns, &mut turns);
    }

    /// The last thing that the narrator said, if anything was said at all.
    pub open spec fn last_response(turns: Seq<TurnModel>) -> Option<Seq<char>> {
        if turns.len() == 0 {
            None
        } else {
            Some(turns.last().content)
        }
    }

    /// Returns the last thing that the narrator said.
    pub fn last_narration(&self) -> (text: Option<String>)
        ensures
            match text {
                Some(said) => History::last_response(self@) == Some(said@),
                None => History::last_response(self@) is None,
            },
            self@.len() > 0 ==> self@.last().role == Role::Assistant,
    {
        proof {
            use_type_invariant(self);
        }
        let len: usize = self.turns.len();
        if len == 0 {
            None
        } else {
            Some(self.turns[len - 1].content.clone())
        }
    }
}

} // verus!
