//! The interactive choice: which row of the catalog is highlighted, and how
//! the choice ended.

use crate::catalog::{
    active_index, first_active, is_first_active, lemma_first_active_is_unique,
    lemma_first_active_of_inactive,
};
use crate::source::{OutputTarget, PaOutput};
use vstd::arithmetic::div_mod::{
    lemma_mod_add_multiples_vanish, lemma_mod_self_0, lemma_small_mod,
};
use vstd::prelude::*;

verus! {

/// A key press, as far as the chooser tells keys apart.
#[derive(Clone, Copy, PartialEq, Eq, Structural, Debug)]
pub enum Key {
    Up,
    Down,
    Enter,
    Char(char),
    Other,
}

/// What a key press asks of the chooser.
#[derive(Clone, Copy, PartialEq, Eq, Structural, Debug)]
pub enum Command {
    MoveUp,
    MoveDown,
    Confirm,
    Cancel,
    Ignore,
}

/// How far the choice has come.
#[derive(Clone, Copy, PartialEq, Eq, Structural, Debug)]
pub enum Outcome {
    Pending,
    Confirmed,
    Cancelled,
}

/// Mathematical model of the selection state over a catalog of `len` targets.
pub struct Selection {
    pub len: nat,
    pub highlighted: Option<nat>,
    pub outcome: Outcome,
}

impl Selection {
    /// A pending or confirmed choice highlights a row of the catalog; a
    /// cancelled one highlights none.
    pub open spec fn wf(self) -> bool {
        match self.outcome {
            Outcome::Pending | Outcome::Confirmed => match self.highlighted {
                Some(i) => i < self.len,
                None => false,
            },
            Outcome::Cancelled => self.highlighted is None,
        }
    }

    /// Row `row` of the list is the one that carries the highlight.
    pub open spec fn marks(self, row: int) -> bool {
        self.highlighted == Some(row as nat) && 0 <= row
    }
}

/// The command that a key stands for: the arrows move, Enter confirms, `x`
/// cancels, every other key is ignored.
pub open spec fn command_of(key: Key) -> Command {
    match key {
        Key::Up => Command::MoveUp,
        Key::Down => Command::MoveDown,
        Key::Enter => Command::Confirm,
        Key::Char(c) => if c == 'x' {
            Command::Cancel
        } else {
            Command::Ignore
        },
        Key::Other => Command::Ignore,
    }
}

/// The selection that the chooser starts with: cancelled at once over an empty
/// catalog, else pending on the first active target, or on row 0 where no
/// target is active.
pub open spec fn initial_selection(catalog: Seq<OutputTarget>) -> Selection {
    if catalog.len() == 0 {
        Selection { len: 0, highlighted: None, outcome: Outcome::Cancelled }
    } else {
        Selection {
            len: catalog.len(),
            highlighted: Some(
                match first_active(catalog) {
                    Some(i) => i,
                    None => 0,
                },
            ),
            outcome: Outcome::Pending,
        }
    }
}

/// One transition of the chooser. Only a pending selection changes; moving and
/// confirming need a highlighted row.
pub open spec fn step(s: Selection, command: Command) -> Selection {
    if s.outcome != Outcome::Pending {
        s
    } else {
        match command {
            Command::Cancel => Selection { highlighted: None, outcome: Outcome::Cancelled, ..s },
            Command::MoveDown => match s.highlighted {
                Some(i) => Selection { highlighted: Some((i + 1) % s.len), ..s },
                None => s,
            },
            Command::MoveUp => match s.highlighted {
                Some(i) => Selection {
                    highlighted: Some(
                        if i == 0 {
                            (s.len - 1) as nat
                        } else {
                            (i - 1) as nat
                        },
                    ),
                    ..s
                },
                None => s,
            },
            Command::Confirm => match s.highlighted {
                Some(_) => Selection { outcome: Outcome::Confirmed, ..s },
                None => s,
            },
            Command::Ignore => s,
        }
    }
}

/// The same command, `times` times in a row.
pub open spec fn repeat(s: Selection, command: Command, times: nat) -> Selection
    decreases times,
{
    if times == 0 {
        s
    } else {
        step(repeat(s, command, (times - 1) as nat), command)
    }
}

/// The command that `key` stands for.
pub fn command_for(key: Key) -> (command: Command)
    ensures
        command == command_of(key),
{
    match key {
        Key::Up => Command::MoveUp,
        Key::Down => Command::MoveDown,
        Key::Enter => Command::Confirm,
        Key::Char(c) => if c == 'x' {
            Command::Cancel
        } else {
            Command::Ignore
        },
        Key::Other => Command::Ignore,
    }
}

/// The selection state of one run of the chooser.
#[derive(Clone, Copy, Debug)]
pub struct SelectionState {
    len: usize,
    highlighted_index: Option<usize>,
    outcome: Outcome,
}

impl View for SelectionState {
    type V = Selection;

    closed spec fn view(&self) -> Selection {
        Selection {
            len: self.len as nat,
            highlighted: match self.highlighted_index {
                Some(i) => Some(i as nat),
                None => None,
            },
            outcome: self.outcome,
        }
    }
}

impl SelectionState {
    #[verifier::type_invariant]
    spec fn inv(self) -> bool {
        self@.wf()
    }

    /// The selection that the chooser starts with over `catalog`.
    pub fn new(catalog: &Vec<PaOutput>) -> (state: Self)
        ensures
            state@ == initial_selection(catalog.deep_view()),
            state@.wf(),
    {
        let len: usize = catalog.len();
        if len == 0 {
            SelectionState { len, highlighted_index: None, outcome: Outcome::Cancelled }
        } else {
            let start: usize = match active_index(catalog) {
                Some(i) => i,
                None => 0,
            };
            SelectionState { len, highlighted_index: Some(start), outcome: Outcome::Pending }
        }
    }

    /// Applies one command.
    pub fn apply(&mut self, command: Command)
        ensures
            final(self)@ == step(old(self)@, command),
            final(self)@.wf(),
    {
        proof {
            use_type_invariant(&*self);
        }
        let len: usize = self.len;
        let next: SelectionState = match self.outcome {
            Outcome::Pending => match command {
                Command::Cancel => SelectionState {
                    len,
                    highlighted_index: None,
                    outcome: Outcome::Cancelled,
                },
                Command::MoveDown => match self.highlighted_index {
                    Some(i) => SelectionState {
                        len,
                        highlighted_index: Some((i + 1) % len),
                        outcome: Outcome::Pending,
                    },
                    None => *self,
                },
                Command::MoveUp => match self.highlighted_index {
                    Some(i) => SelectionState {
                        len,
                        highlighted_index: Some(
                            if i == 0 {
                                len - 1
                            } else {
                                i - 1
                            },
                        ),
                        outcome: Outcome::Pending,
                    },
                    None => *self,
                },
                Command::Confirm => match self.highlighted_index {
                    Some(i) => SelectionState {
                        len,
                        highlighted_index: Some(i),
                        outcome: Outcome::Confirmed,
                    },
                    None => *self,
                },
                Command::Ignore => *self,
            },
            Outcome::Confirmed | Outcome::Cancelled => *self,
        };
        *self = next;
    }

    /// Applies the command that `key` stands for.
    pub fn handle_key(&mut self, key: Key)
        ensures
            final(self)@ == step(old(self)@, command_of(key)),
            final(self)@.wf(),
    {
        self.apply(command_for(key));
    }

    /// Number of targets in the catalog that the selection ranges over.
    pub fn len(&self) -> (len: usize)
        ensures
            len == self@.len,
    {
        self.len
    }

    /// The highlighted row, if there is one.
    pub fn highlighted_index(&self) -> (index: Option<usize>)
        ensures
            self@.wf(),
            match index {
                Some(i) => self@.highlighted == Some(i as nat) && i < self@.len,
                None => self@.highlighted is None,
            },
    {
        proof {
            use_type_invariant(self);
        }
        self.highlighted_index
    }

    /// How far the choice has come.
    pub fn outcome(&self) -> (outcome: Outcome)
        ensures
            self@.wf(),
            outcome == self@.outcome,
    {
        proof {
            use_type_invariant(self);
        }
        self.outcome
    }

    /// Whether the chooser still waits for input.
    pub fn is_pending(&self) -> (pending: bool)
        ensures
            self@.wf(),
            pending == (self@.outcome is Pending),
    {
        proof {
            use_type_invariant(self);
        }
        match self.outcome {
            Outcome::Pending => true,
            _ => false,
        }
    }

    /// The row that was confirmed, if the choice ended that way.
    pub fn confirmed_index(&self) -> (index: Option<usize>)
        ensures
            self@.wf(),
            match index {
                Some(i) => self@.outcome is Confirmed && self@.highlighted == Some(i as nat) && i
                    < self@.len,
                None => !(self@.outcome is Confirmed),
            },
    {
        proof {
            use_type_invariant(self);
        }
        match self.outcome {
            Outcome::Confirmed => self.highlighted_index,
            _ => None,
        }
    }
}

/// Every transition keeps a well-formed selection well-formed.
pub proof fn law_step_preserves_wf(s: Selection, command: Command)
    requires
        s.wf(),
    ensures
        step(s, command).wf(),
        step(s, command).len == s.len,
{
}

/// The initial selection is well-formed.
pub proof fn law_initial_selection_wf(catalog: Seq<OutputTarget>)
    ensures
        initial_selection(catalog).wf(),
        initial_selection(catalog).len == catalog.len(),
{
}

/// While the choice is pending or confirmed, exactly one row of the catalog
/// carries the highlight; once it is cancelled, none does.
pub proof fn law_one_row_is_marked(s: Selection)
    requires
        s.wf(),
    ensures
        !(s.outcome is Cancelled) ==> 0 <= s.highlighted->0 < s.len && forall|row: int|
            s.marks(row) <==> row == s.highlighted->0,
        s.outcome is Cancelled ==> forall|row: int| !s.marks(row),
{
}

/// Moving down `k` times from row `i` highlights row `(i + k) mod len`.
proof fn lemma_move_down_many(s: Selection, k: nat)
    requires
        s.wf(),
        s.outcome is Pending,
    ensures
        repeat(s, Command::MoveDown, k) == (Selection {
            highlighted: Some((s.highlighted->0 + k) % s.len),
            ..s
        }),
    decreases k,
{
    let n = s.len as int;
    let i = s.highlighted->0 as int;
    if k == 0 {
        lemma_small_mod(i as nat, n as nat);
    } else {
        lemma_move_down_many(s, (k - 1) as nat);
        assert(((i + k - 1) % n + 1) % n == (i + k) % n) by (nonlinear_arith)
            requires
                n > 0,
                i >= 0,
                k >= 1,
        ;
    }
}

/// Moving down as many times as the catalog has targets leads back to where
/// the selection was.
pub proof fn law_move_down_cycle(s: Selection)
    requires
        s.wf(),
        s.outcome is Pending,
    ensures
        s.len >= 1,
        repeat(s, Command::MoveDown, s.len) == s,
{
    lemma_move_down_many(s, s.len);
    let i = s.highlighted->0 as int;
    lemma_mod_add_multiples_vanish(i, s.len as int);
    lemma_small_mod(i as nat, s.len);
}

/// Moving up from the first row highlights the last one.
pub proof fn law_move_up_wraps(s: Selection)
    requires
        s.wf(),
        s.outcome is Pending,
        s.highlighted == Some(0nat),
    ensures
        step(s, Command::MoveUp).highlighted == Some((s.len - 1) as nat),
        step(s, Command::MoveUp).outcome is Pending,
{
}

/// Moving up undoes moving down, and moving down undoes moving up.
pub proof fn law_moves_are_inverse(s: Selection)
    requires
        s.wf(),
        s.outcome is Pending,
    ensures
        step(step(s, Command::MoveDown), Command::MoveUp) == s,
        step(step(s, Command::MoveUp), Command::MoveDown) == s,
{
    let i = s.highlighted->0;
    if i + 1 < s.len {
        lemma_small_mod(i + 1, s.len);
    } else {
        lemma_mod_self_0(s.len as int);
    }
    if i == 0 {
        lemma_mod_self_0(s.len as int);
    } else {
        lemma_small_mod(i, s.len);
    }
}

/// Where exactly one target is active, the chooser starts on it.
pub proof fn law_initial_highlight_is_active(catalog: Seq<OutputTarget>, i: int)
    requires
        0 <= i < catalog.len(),
        catalog[i].is_active,
        forall|j: int| 0 <= j < catalog.len() && j != i ==> !(#[trigger] catalog[j]).is_active,
    ensures
        initial_selection(catalog).highlighted == Some(i as nat),
        initial_selection(catalog).outcome is Pending,
{
    lemma_first_active_is_unique(catalog, i);
}

/// Where no target of a catalog that has targets is active, the chooser starts
/// on the first row.
pub proof fn law_initial_highlight_default(catalog: Seq<OutputTarget>)
    requires
        catalog.len() >= 1,
        forall|j: int| 0 <= j < catalog.len() ==> !(#[trigger] catalog[j]).is_active,
    ensures
        initial_selection(catalog).highlighted == Some(0nat),
        initial_selection(catalog).outcome is Pending,
{
    lemma_first_active_of_inactive(catalog);
}

/// Cancelling a pending selection ends it as cancelled, with no row
/// highlighted, whichever row was.
pub proof fn law_cancel_clears(s: Selection)
    requires
        s.outcome is Pending,
    ensures
        step(s, Command::Cancel).outcome is Cancelled,
        step(s, Command::Cancel).highlighted is None,
{
}

/// Over an empty catalog the chooser starts cancelled, and confirming changes
/// nothing.
pub proof fn law_confirm_on_empty_catalog(catalog: Seq<OutputTarget>)
    requires
        catalog.len() == 0,
    ensures
        initial_selection(catalog).outcome is Cancelled,
        initial_selection(catalog).highlighted is None,
        step(initial_selection(catalog), Command::Confirm) == initial_selection(catalog),
{
}

/// A selection that has ended stays as it is.
pub proof fn law_ended_selection_is_final(s: Selection, command: Command)
    requires
        !(s.outcome is Pending),
    ensures
        step(s, command) == s,
{
}

} // verus!
