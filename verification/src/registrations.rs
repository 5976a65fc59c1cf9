//! Registration records: one row per successful registration submission,
//! appended and never changed. The log models the relational table the
//! driver persists rows to.

use vstd::prelude::*;

verus! {

/// One registration row: both fields are free text, stored as submitted.
#[derive(Debug, Clone, PartialEq, Eq)]
pub struct Registration {
    pub guild_id: u64,
    pub name: String,
    pub age: String,
}

/// The mathematical model of a registration row.
pub struct RegistrationModel {
    pub guild_id: u64,
    pub name: Seq<char>,
    pub age: Seq<char>,
}

impl View for Registration {
    type V = RegistrationModel;

    open spec fn view(&self) -> RegistrationModel {
        RegistrationModel { guild_id: self.guild_id, name: self.name@, age: self.age@ }
    }
}

/// An append-only log of registrations, oldest first. No uniqueness and no
/// content validation: every accepted submission lands as its own row.
pub struct RegistrationLog {
    rows: Vec<Registration>,
}

impl RegistrationLog {
    /// The stored rows, in insertion order.
    pub closed spec fn view(&self) -> Seq<RegistrationModel> {
        self.rows@.map_values(|r: Registration| r@)
    }

    /// An empty log.
    pub fn new() -> (log: RegistrationLog)
        ensures
            log@ == Seq::<RegistrationModel>::empty(),
    {
        let log = RegistrationLog { rows: Vec::new() };
        proof {
            assert(log@ =~= Seq::<RegistrationModel>::empty());
        }
        log
    }

    /// How many rows the log holds.
    pub fn len(&self) -> (n: usize)
        ensures
            n == self@.len(),
    {
        self.rows.len()
    }

    /// The row at `i`, oldest first.
    pub fn row(&self, i: usize) -> (r: &Registration)
        requires
            i < self@.len(),
        ensures
            r@ == self@[i as int],
    {
        &self.rows[i]
    }

    /// Appends one row; everything already stored stays as it was.
    pub fn save(&mut self, row: Registration)
        ensures
            final (self)@ == old(self)@.push(row@),
    {
        let ghost oldv = self@;
        self.rows.push(row);
        proof {
            assert(self@ =~= oldv.push(self.rows@.last()@));
        }
    }
}

} // verus!
