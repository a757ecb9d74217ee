//! The coarse stages of the sealing pipeline and their canonical names.

use vstd::prelude::*;

verus! {

/// A coarse stage of the sealing pipeline, in pipeline order.
#[derive(Clone, Copy, Debug, PartialEq, Eq, Structural)]
pub enum SealingState {
    Empty,
    Allocated,
    DealsAcquired,
    PieceAdded,
    TicketAssigned,
    PC1Done,
    PC2Done,
    PCSubmitted,
    PCLanded,
    Persisted,
    PersistanceSubmitted,
    SeedAssigned,
    C1Done,
    C2Done,
    ProofSubmitted,
    Finished,
    Aborted,
}

/// The error given for text that names no sealing state.
#[derive(Clone, Debug, PartialEq, Eq)]
pub struct InvalidState {
    pub text: String,
}

/// Canonical name of a state.
pub open spec fn state_name(s: SealingState) -> Seq<char> {
    match s {
        SealingState::Empty => "Empty"@,
        SealingState::Allocated => "Allocated"@,
        SealingState::DealsAcquired => "DealsAcquired"@,
        SealingState::PieceAdded => "PieceAdded"@,
        SealingState::TicketAssigned => "TicketAssigned"@,
        SealingState::PC1Done => "PC1Done"@,
        SealingState::PC2Done => "PC2Done"@,
        SealingState::PCSubmitted => "PCSubmitted"@,
        SealingState::PCLanded => "PCLanded"@,
        SealingState::Persisted => "Persisted"@,
        SealingState::PersistanceSubmitted => "PersistanceSubmitted"@,
        SealingState::SeedAssigned => "SeedAssigned"@,
        SealingState::C1Done => "C1Done"@,
        SealingState::C2Done => "C2Done"@,
        SealingState::ProofSubmitted => "ProofSubmitted"@,
        SealingState::Finished => "Finished"@,
        SealingState::Aborted => "Aborted"@,
    }
}

/// Whether some state has the given name.
pub open spec fn names_a_state(t: Seq<char>) -> bool {
    exists|s: SealingState| state_name(s) == t
}

/// Distinct states have distinct names.
pub proof fn lemma_state_name_injective(a: SealingState, b: SealingState)
    ensures
        state_name(a) == state_name(b) ==> a == b,
{
    if state_name(a) == state_name(b) {
        reveal_strlit("Empty");
        reveal_strlit("Allocated");
        reveal_strlit("DealsAcquired");
        reveal_strlit("PieceAdded");
        reveal_strlit("TicketAssigned");
        reveal_strlit("PC1Done");
        reveal_strlit("PC2Done");
        reveal_strlit("PCSubmitted");
        reveal_strlit("PCLanded");
        reveal_strlit("Persisted");
        reveal_strlit("PersistanceSubmitted");
        reveal_strlit("SeedAssigned");
        reveal_strlit("C1Done");
        reveal_strlit("C2Done");
        reveal_strlit("ProofSubmitted");
        reveal_strlit("Finished");
        reveal_strlit("Aborted");
        assert(state_name(a).len() == state_name(b).len());
        assert(state_name(a)[0] == state_name(b)[0]);
        assert(state_name(a)[1] == state_name(b)[1]);
        assert(state_name(a)[2] == state_name(b)[2]);
        assert(state_name(a)[3] == state_name(b)[3]);
    }
}

/// Parsing the name of a state gives that state back.
pub proof fn lemma_parse_name(s: SealingState, r: Result<SealingState, InvalidState>)
    requires
        match r {
            Ok(t) => state_name(t) == state_name(s),
            Err(e) => !names_a_state(state_name(s)),
        },
    ensures
        r == Ok::<SealingState, InvalidState>(s),
{
    match r {
        Ok(t) => lemma_state_name_injective(s, t),
        Err(e) => assert(names_a_state(state_name(s))),
    }
}

/// Character-wise equality of two strings.
pub fn str_equal(a: &str, b: &str) -> (r: bool)
    ensures
        r == (a@ == b@),
{
    let n = a.unicode_len();
    let m = b.unicode_len();
    if n != m {
        return false;
    }
    let mut i: usize = 0;
    while i < n
        invariant
            n == a@.len(),
            m == b@.len(),
            n == m,
            i <= n,
            forall|k: int| 0 <= k < i ==> a@[k] == b@[k],
        decreases n - i,
    {
        if a.get_char(i) != b.get_char(i) {
            return false;
        }
        i = i + 1;
    }
    assert(a@ =~= b@);
    true
}

impl SealingState {
    /// The canonical name of this state.
    pub fn name(&self) -> (r: &'static str)
        ensures
            r@ == state_name(*self),
    {
        match self {
            SealingState::Empty => "Empty",
            SealingState::Allocated => "Allocated",
            SealingState::DealsAcquired => "DealsAcquired",
            SealingState::PieceAdded => "PieceAdded",
            SealingState::TicketAssigned => "TicketAssigned",
            SealingState::PC1Done => "PC1Done",
            SealingState::PC2Done => "PC2Done",
            SealingState::PCSubmitted => "PCSubmitted",
            SealingState::PCLanded => "PCLanded",
            SealingState::Persisted => "Persisted",
            SealingState::PersistanceSubmitted => "PersistanceSubmitted",
            SealingState::SeedAssigned => "SeedAssigned",
            SealingState::C1Done => "C1Done",
            SealingState::C2Done => "C2Done",
            SealingState::ProofSubmitted => "ProofSubmitted",
            SealingState::Finished => "Finished",
            SealingState::Aborted => "Aborted",
        }
    }

    /// Every state, in pipeline order.
    pub fn all() -> (r: Vec<SealingState>)
        ensures
            forall|s: SealingState| r@.contains(s),
    {
        let r = vec![
            SealingState::Empty,
            SealingState::Allocated,
            SealingState::DealsAcquired,
            SealingState::PieceAdded,
            SealingState::TicketAssigned,
            SealingState::PC1Done,
            SealingState::PC2Done,
            SealingState::PCSubmitted,
            SealingState::PCLanded,
            SealingState::Persisted,
            SealingState::PersistanceSubmitted,
            SealingState::SeedAssigned,
            SealingState::C1Done,
            SealingState::C2Done,
            SealingState::ProofSubmitted,
            SealingState::Finished,
            SealingState::Aborted,
        ];
        assert forall|s: SealingState| r@.contains(s) by {
            match s {
                SealingState::Empty => assert(r@[0] == s),
                SealingState::Allocated => assert(r@[1] == s),
                SealingState::DealsAcquired => assert(r@[2] == s),
                SealingState::PieceAdded => assert(r@[3] == s),
                SealingState::TicketAssigned => assert(r@[4] == s),
                SealingState::PC1Done => assert(r@[5] == s),
                SealingState::PC2Done => assert(r@[6] == s),
                SealingState::PCSubmitted => assert(r@[7] == s),
                SealingState::PCLanded => assert(r@[8] == s),
                SealingState::Persisted => assert(r@[9] == s),
                SealingState::PersistanceSubmitted => assert(r@[10] == s),
                SealingState::SeedAssigned => assert(r@[11] == s),
                SealingState::C1Done => assert(r@[12] == s),
                SealingState::C2Done => assert(r@[13] == s),
                SealingState::ProofSubmitted => assert(r@[14] == s),
                SealingState::Finished => assert(r@[15] == s),
                SealingState::Aborted => assert(r@[16] == s),
            }
        }
        r
    }

    /// Parses a canonical state name; any other text is refused.
    pub fn parse(text: &str) -> (r: Result<SealingState, InvalidState>)
        ensures
            match r {
                Ok(s) => state_name(s) == text@,
                Err(e) => !names_a_state(text@) && e.text@ == text@,
            },
    {
        let states = SealingState::all();
        let mut i: usize = 0;
        while i < states.len()
            invariant
                i <= states@.len(),
                forall|s: SealingState| states@.contains(s),
                forall|k: int| 0 <= k < i ==> state_name(#[trigger] states@[k]) != text@,
            decreases states@.len() - i,
        {
            let s = states[i];
            if str_equal(s.name(), text) {
                return Ok(s);
            }
            i = i + 1;
        }
        assert forall|s: SealingState| state_name(s) != text@ by {
            assert(states@.contains(s));
            let k = choose|k: int| 0 <= k < states@.len() && states@[k] == s;
            assert(state_name(states@[k]) != text@);
        }
        Err(InvalidState { text: text.to_string() })
    }
}

} // verus!
