//! Who takes part in a ceremony: addresses, roles and identities.

use crate::text::same_text;
use vstd::prelude::*;

verus! {

/// Whether `c` may stand in an address: a lower case ASCII letter or a digit.
pub open spec fn is_address_char(c: char) -> bool {
    ('a' <= c && c <= 'z') || ('0' <= c && c <= '9')
}

/// Whether `s` is a well-formed address: the letters `aleo`, then at least
/// one more character, all of them lower case ASCII letters or digits.
pub open spec fn is_address(s: Seq<char>) -> bool {
    &&& s.len() >= 5
    &&& s[0] == 'a'
    &&& s[1] == 'l'
    &&& s[2] == 'e'
    &&& s[3] == 'o'
    &&& forall|i: int| 0 <= i < s.len() ==> is_address_char(#[trigger] s[i])
}

/// The address of a participant, known to be well formed.
#[derive(Debug, PartialEq, Eq)]
pub struct AleoPublicKey {
    text: String,
}

impl View for AleoPublicKey {
    type V = Seq<char>;

    closed spec fn view(&self) -> Seq<char> {
        self.text@
    }
}

impl Clone for AleoPublicKey {
    fn clone(&self) -> (copy: Self)
        ensures
            copy == *self,
    {
        proof {
            use_type_invariant(self);
        }
        AleoPublicKey { text: self.text.clone() }
    }
}

impl AleoPublicKey {
    #[verifier::type_invariant]
    spec fn well_formed(self) -> bool {
        is_address(self.text@)
    }

    /// Reads an address. It is accepted exactly when it is well formed, and
    /// then kept as written.
    pub fn from_str(text: &str) -> (parsed: Option<AleoPublicKey>)
        ensures
            parsed is Some <==> is_address(text@),
            parsed matches Some(key) ==> key@ == text@,
    {
        let len = text.unicode_len();
        if len < 5 {
            return None;
        }
        if text.get_char(0) != 'a' || text.get_char(1) != 'l' || text.get_char(2) != 'e'
            || text.get_char(3) != 'o' {
            return None;
        }
        let mut i: usize = 0;
        while i < len
            invariant
                i <= len,
                len == text@.len(),
                forall|j: int| 0 <= j < i ==> is_address_char(#[trigger] text@[j]),
            decreases len - i,
        {
            let c = text.get_char(i);
            if !((c >= 'a' && c <= 'z') || (c >= '0' && c <= '9')) {
                return None;
            }
            i = i + 1;
        }
        Some(AleoPublicKey { text: text.to_owned() })
    }

    /// The address as text.
    pub fn as_str(&self) -> (text: &str)
        ensures
            text@ == self@,
            is_address(text@),
    {
        proof {
            use_type_invariant(self);
        }
        self.text.as_str()
    }
}

/// The part that a participant plays in a round.
#[derive(Clone, Copy, Debug, PartialEq, Eq, Structural)]
pub enum ParticipantRole {
    Contributor,
    Verifier,
}

impl ParticipantRole {
    /// The role that a token of a log line names, if it names one.
    pub open spec fn of_token(token: Seq<char>) -> Option<ParticipantRole> {
        if token == "contributor"@ {
            Some(ParticipantRole::Contributor)
        } else if token == "verifier"@ {
            Some(ParticipantRole::Verifier)
        } else {
            None
        }
    }

    /// The token by which log lines name this role.
    pub open spec fn token(self) -> Seq<char> {
        match self {
            ParticipantRole::Contributor => "contributor"@,
            ParticipantRole::Verifier => "verifier"@,
        }
    }

    /// Reads a role token: `contributor` or `verifier`, and nothing else.
    pub fn from_token(token: &str) -> (role: Option<ParticipantRole>)
        ensures
            role == ParticipantRole::of_token(token@),
    {
        if same_text(token, "contributor") {
            Some(ParticipantRole::Contributor)
        } else if same_text(token, "verifier") {
            Some(ParticipantRole::Verifier)
        } else {
            None
        }
    }

    /// The token by which log lines name this role.
    pub fn as_token(self) -> (token: &'static str)
        ensures
            token@ == self.token(),
    {
        match self {
            ParticipantRole::Contributor => "contributor",
            ParticipantRole::Verifier => "verifier",
        }
    }
}

/// A participant: an address and the role it plays.
#[derive(Debug, PartialEq, Eq)]
pub struct ParticipantIdentity {
    pub address: AleoPublicKey,
    pub role: ParticipantRole,
}

/// The model of a participant, over which contracts are stated.
pub struct ParticipantIdentityView {
    pub address: Seq<char>,
    pub role: ParticipantRole,
}

impl View for ParticipantIdentity {
    type V = ParticipantIdentityView;

    open spec fn view(&self) -> ParticipantIdentityView {
        ParticipantIdentityView { address: self.address@, role: self.role }
    }
}

impl Clone for ParticipantIdentity {
    fn clone(&self) -> (copy: Self)
        ensures
            copy == *self,
    {
        ParticipantIdentity { address: self.address.clone(), role: self.role }
    }
}

} // verus!
