//! Identifiers of the chat service: snowflakes and shard identifiers.

use crate::text::{decimal, number_within, parse_u64};
use vstd::prelude::*;
use vstd::string::*;

verus! {

/// A snowflake identifier: a 64-bit number that is never zero.
#[derive(Debug, Clone, Copy, PartialEq, Eq, Hash)]
pub struct Id {
    value: u64,
}

impl View for Id {
    type V = u64;

    closed spec fn view(&self) -> u64 {
        self.value
    }
}

impl Id {
    #[verifier::type_invariant]
    spec fn nonzero(self) -> bool {
        self.value != 0
    }

    /// The identifier with value `n`.
    pub fn new(n: u64) -> (id: Id)
        requires
            n != 0,
        ensures
            id@ == n,
    {
        Id { value: n }
    }

    /// The identifier with value `n`, where `n` is not zero.
    pub fn new_checked(n: u64) -> (id: Option<Id>)
        ensures
            n == 0 <==> id is None,
            id matches Some(found) ==> found@ == n,
    {
        if n == 0 {
            None
        } else {
            Some(Id { value: n })
        }
    }

    /// The identifier that a text writes.
    pub open spec fn written(text: Seq<char>) -> Option<u64> {
        match number_within(text, u64::MAX as nat) {
            Some(n) => if n != 0 {
                Some(n as u64)
            } else {
                None
            },
            None => None,
        }
    }

    /// The identifier that a text writes in decimal: a number that fits
    /// into 64 bits and is not zero.
    pub fn from_str(s: &str) -> (id: Option<Id>)
        ensures
            match id {
                Some(id) => Self::written(s@) == Some(id@),
                None => Self::written(s@) is None,
            },
    {
        match parse_u64(s) {
            Some(n) => Self::new_checked(n),
            None => None,
        }
    }

    /// The number behind the identifier.
    pub fn get(&self) -> (n: u64)
        ensures
            n == self@,
            n != 0,
    {
        proof {
            use_type_invariant(self);
        }
        self.value
    }

    /// Identifiers are equal exactly when their numbers are.
    pub proof fn lemma_view_decides(a: Id, b: Id)
        ensures
            (a@ == b@) <==> (a == b),
    {
    }
}

/// Identifier of one gateway connection: its number out of a total.
#[derive(Debug, Clone, Copy, PartialEq, Eq, Hash)]
pub struct ShardId {
    number: u64,
    total: u64,
}

/// What a `ShardId` stands for.
pub struct ShardIdView {
    pub number: u64,
    pub total: u64,
}

impl ShardIdView {
    /// How a shard identifier is written: `[number, total]`.
    pub open spec fn text(self) -> Seq<char> {
        "["@ + decimal(self.number as nat) + ", "@ + decimal(self.total as nat) + "]"@
    }
}

/// `Display` of `twilight_model::gateway::ShardId`, which its documentation
/// gives as `[{number}, {total}]`, both numbers in decimal.
#[verifier::external_body]
fn display_shard_id(number: u64, total: u64) -> (text: String)
    requires
        number < total,
    ensures
        text@ == (ShardIdView { number, total }).text(),
{
    twilight_model::gateway::ShardId::new(number, total).to_string()
}

impl View for ShardId {
    type V = ShardIdView;

    closed spec fn view(&self) -> ShardIdView {
        ShardIdView { number: self.number, total: self.total }
    }
}

impl ShardId {
    #[verifier::type_invariant]
    spec fn in_range(self) -> bool {
        self.number < self.total
    }

    /// The identifier of connection `number` out of `total`.
    pub fn new(number: u64, total: u64) -> (id: ShardId)
        requires
            number < total,
        ensures
            id@.number == number,
            id@.total == total,
    {
        ShardId { number, total }
    }

    /// The identifier of connection `number` out of `total`, where the
    /// number is below the total.
    pub fn new_checked(number: u64, total: u64) -> (id: Option<ShardId>)
        ensures
            number < total <==> id is Some,
            id matches Some(found) ==> found@.number == number && found@.total == total,
    {
        if number < total {
            Some(ShardId { number, total })
        } else {
            None
        }
    }

    /// Number of the connection, counted from zero.
    pub fn number(&self) -> (n: u64)
        ensures
            n == self@.number,
            n < self@.total,
    {
        proof {
            use_type_invariant(self);
        }
        self.number
    }

    /// Number of connections that the bot uses.
    pub fn total(&self) -> (n: u64)
        ensures
            n == self@.total,
            self@.number < n,
    {
        proof {
            use_type_invariant(self);
        }
        self.total
    }

    /// The identifier as it is written: `[number, total]`.
    pub fn to_string(&self) -> (text: String)
        ensures
            text@ == self@.text(),
    {
        display_shard_id(self.number(), self.total())
    }
}

} // verus!
