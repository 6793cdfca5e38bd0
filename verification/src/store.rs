//! An in-memory store with the contract the durable engine must provide:
//! records keyed by id, secondary lookups, an optimistic version check on
//! box updates, and a conditional write for invitation redemption.
//!
//! One instance models the single source of truth; the rim shares it
//! behind a lock, so each method below is one atomic step. The
//! conditional operations are where the concurrency story lives: of two
//! racing box updates one observes `Conflict`, and of two racing
//! redemptions exactly one commits while the loser observes `Forbidden`.

use vstd::prelude::*;

use crate::errors::{Error, ErrorKind};
use crate::model::{box_like, BoxRecord, Invitation};

verus! {

/// `i` is the position of the first box with id `id`.
pub open spec fn is_first_box(s: Seq<BoxRecord>, id: Seq<char>, i: int) -> bool {
    &&& 0 <= i < s.len()
    &&& s[i].id@ == id
    &&& forall|k: int| 0 <= k < i ==> (#[trigger] s[k].id@) != id
}

/// Some box of the sequence has id `id`.
pub open spec fn has_box(s: Seq<BoxRecord>, id: Seq<char>) -> bool {
    exists|i: int| 0 <= i < s.len() && (#[trigger] s[i].id@) == id
}

/// `i` is the position of the first invitation with id `id`.
pub open spec fn is_first_invitation(s: Seq<Invitation>, id: Seq<char>, i: int) -> bool {
    &&& 0 <= i < s.len()
    &&& s[i].id@ == id
    &&& forall|k: int| 0 <= k < i ==> (#[trigger] s[k].id@) != id
}

/// Some invitation of the sequence has id `id`.
pub open spec fn has_invitation(s: Seq<Invitation>, id: Seq<char>) -> bool {
    exists|i: int| 0 <= i < s.len() && (#[trigger] s[i].id@) == id
}

/// `i` is the position of the first invitation with code `code`.
pub open spec fn is_first_code(s: Seq<Invitation>, code: Seq<char>, i: int) -> bool {
    &&& 0 <= i < s.len()
    &&& s[i].invite_code@ == code
    &&& forall|k: int| 0 <= k < i ==> (#[trigger] s[k].invite_code@) != code
}

/// Some invitation of the sequence has code `code`.
pub open spec fn has_code(s: Seq<Invitation>, code: Seq<char>) -> bool {
    exists|i: int| 0 <= i < s.len() && (#[trigger] s[i].invite_code@) == code
}

/// The in-memory store: every box and invitation, in insertion order.
pub struct MemoryStore {
    pub boxes: Vec<BoxRecord>,
    pub invitations: Vec<Invitation>,
}

/// Finds the first box with the given id.
fn find_box(s: &Vec<BoxRecord>, id: &String) -> (r: Option<usize>)
    ensures
        match r {
            Some(i) => is_first_box(s@, id@, i as int),
            None => !has_box(s@, id@),
        },
{
    let mut i: usize = 0;
    while i < s.len()
        invariant
            i <= s.len(),
            forall|k: int| 0 <= k < i ==> (#[trigger] s@[k].id@) != id@,
        decreases s.len() - i,
    {
        if s[i].id == *id {
            return Some(i);
        }
        i = i + 1;
    }
    None
}

/// Finds the first invitation with the given id.
fn find_invitation(s: &Vec<Invitation>, id: &String) -> (r: Option<usize>)
    ensures
        match r {
            Some(i) => is_first_invitation(s@, id@, i as int),
            None => !has_invitation(s@, id@),
        },
{
    let mut i: usize = 0;
    while i < s.len()
        invariant
            i <= s.len(),
            forall|k: int| 0 <= k < i ==> (#[trigger] s@[k].id@) != id@,
        decreases s.len() - i,
    {
        if s[i].id == *id {
            return Some(i);
        }
        i = i + 1;
    }
    None
}

/// Finds the first invitation with the given code.
fn find_code(s: &Vec<Invitation>, code: &String) -> (r: Option<usize>)
    ensures
        match r {
            Some(i) => is_first_code(s@, code@, i as int),
            None => !has_code(s@, code@),
        },
{
    let mut i: usize = 0;
    while i < s.len()
        invariant
            i <= s.len(),
            forall|k: int| 0 <= k < i ==> (#[trigger] s@[k].invite_code@) != code@,
        decreases s.len() - i,
    {
        if s[i].invite_code == *code {
            return Some(i);
        }
        i = i + 1;
    }
    None
}

impl MemoryStore {
    /// An empty store.
    pub fn new() -> (r: MemoryStore)
        ensures
            r.boxes@.len() == 0,
            r.invitations@.len() == 0,
    {
        MemoryStore { boxes: Vec::new(), invitations: Vec::new() }
    }

    /// Stores a box: the first record with the same id is replaced, else
    /// the record is appended.
    pub fn put_box(&mut self, b: BoxRecord)
        ensures
            final(self).invitations@ == old(self).invitations@,
            has_box(old(self).boxes@, b.id@) ==> exists|i: int|
                is_first_box(old(self).boxes@, b.id@, i) && final(self).boxes@ == old(self).boxes@.update(i, b),
            !has_box(old(self).boxes@, b.id@) ==> final(self).boxes@ == old(self).boxes@.push(b),
    {
        match find_box(&self.boxes, &b.id) {
            Some(i) => {
                self.boxes[i] = b;
            },
            None => {
                self.boxes.push(b);
            },
        }
    }

    /// Reads the box with the given id; `NotFound` when absent.
    pub fn get_box(&self, id: &String) -> (r: Result<BoxRecord, Error>)
        ensures
            !has_box(self.boxes@, id@) ==> (r matches Err(e) && e.kind == ErrorKind::NotFound),
            has_box(self.boxes@, id@) ==> exists|i: int|
                is_first_box(self.boxes@, id@, i) && (r matches Ok(b) && box_like(
                    b,
                    self.boxes@[i],
                )),
    {
        match find_box(&self.boxes, id) {
            Some(i) => {
                let out: Result<BoxRecord, Error> = Ok(self.boxes[i].clone());
                proof {
                    assert(is_first_box(self.boxes@, id@, i as int));
                }
                out
            },
            None => Err(Error::new(ErrorKind::NotFound, String::from_str("Box not found"))),
        }
    }

    /// Commits an updated box under the optimistic version check: the
    /// write succeeds only while the stored version still equals the
    /// version the caller read, and the commit bumps the version by one.
    /// A caller racing with a committed write observes `Conflict`.
    pub fn update_box(&mut self, b: BoxRecord) -> (r: Result<(), Error>)
        requires
            b.version < u64::MAX,
        ensures
            final(self).invitations@ == old(self).invitations@,
            !has_box(old(self).boxes@, b.id@) ==> (r matches Err(e) && e.kind == ErrorKind::NotFound)
                && final(self).boxes@ == old(self).boxes@,
            has_box(old(self).boxes@, b.id@) ==> exists|i: int|
                #![trigger is_first_box(old(self).boxes@, b.id@, i)]
                {
                    &&& is_first_box(old(self).boxes@, b.id@, i)
                    &&& if old(self).boxes@[i].version == b.version {
                        r is Ok && final(self).boxes@ == old(self).boxes@.update(
                            i,
                            BoxRecord { version: (b.version + 1) as u64, ..b },
                        )
                    } else {
                        (r matches Err(e) && e.kind == ErrorKind::Conflict) && final(self).boxes@
                            == old(self).boxes@
                    }
                },
    {
        match find_box(&self.boxes, &b.id) {
            None => Err(Error::new(ErrorKind::NotFound, String::from_str("Box not found"))),
            Some(i) => {
                proof {
                    assert(is_first_box(self.boxes@, b.id@, i as int));
                }
                if self.boxes[i].version != b.version {
                    return Err(
                        Error::new(
                            ErrorKind::Conflict,
                            String::from_str("Box was modified concurrently"),
                        ),
                    );
                }
                let mut b = b;
                b.version = b.version + 1;
                self.boxes[i] = b;
                Ok(())
            },
        }
    }

    /// Removes the box with the given id; `NotFound` when absent.
    pub fn delete_box(&mut self, id: &String) -> (r: Result<(), Error>)
        ensures
            final(self).invitations@ == old(self).invitations@,
            !has_box(old(self).boxes@, id@) ==> (r matches Err(e) && e.kind == ErrorKind::NotFound)
                && final(self).boxes@ == old(self).boxes@,
            has_box(old(self).boxes@, id@) ==> exists|i: int|
                is_first_box(old(self).boxes@, id@, i) && r is Ok && final(self).boxes@ == old(self).boxes@.remove(i),
    {
        match find_box(&self.boxes, id) {
            None => Err(Error::new(ErrorKind::NotFound, String::from_str("Box not found"))),
            Some(i) => {
                proof {
                    assert(is_first_box(self.boxes@, id@, i as int));
                }
                self.boxes.remove(i);
                Ok(())
            },
        }
    }

    /// Stores an invitation: the first record with the same id is
    /// replaced, else the record is appended.
    pub fn put_invitation(&mut self, inv: Invitation)
        ensures
            final(self).boxes@ == old(self).boxes@,
            has_invitation(old(self).invitations@, inv.id@) ==> exists|i: int|
                is_first_invitation(old(self).invitations@, inv.id@, i) && final(self).invitations@
                    == old(self).invitations@.update(i, inv),
            !has_invitation(old(self).invitations@, inv.id@) ==> final(self).invitations@ == old(self).invitations@.push(inv),
    {
        match find_invitation(&self.invitations, &inv.id) {
            Some(i) => {
                self.invitations[i] = inv;
            },
            None => {
                self.invitations.push(inv);
            },
        }
    }

    /// Reads the invitation with the given id; `NotFound` when absent.
    pub fn get_invitation(&self, id: &String) -> (r: Result<Invitation, Error>)
        ensures
            !has_invitation(self.invitations@, id@) ==> (r matches Err(e) && e.kind
                == ErrorKind::NotFound),
            has_invitation(self.invitations@, id@) ==> exists|i: int|
                is_first_invitation(self.invitations@, id@, i) && (r matches Ok(inv) && inv
                    == self.invitations@[i]),
    {
        match find_invitation(&self.invitations, id) {
            Some(i) => {
                let out: Result<Invitation, Error> = Ok(self.invitations[i].clone());
                proof {
                    assert(is_first_invitation(self.invitations@, id@, i as int));
                }
                out
            },
            None => Err(
                Error::new(ErrorKind::NotFound, String::from_str("Invitation not found")),
            ),
        }
    }

    /// Looks an invitation up by its code, the store's secondary index;
    /// `None` when no record carries the code.
    pub fn get_invitation_by_code(&self, code: &String) -> (r: Option<Invitation>)
        ensures
            !has_code(self.invitations@, code@) ==> r is None,
            has_code(self.invitations@, code@) ==> exists|i: int|
                is_first_code(self.invitations@, code@, i) && (r matches Some(inv) && inv
                    == self.invitations@[i]),
    {
        match find_code(&self.invitations, code) {
            Some(i) => {
                let out: Option<Invitation> = Some(self.invitations[i].clone());
                proof {
                    assert(is_first_code(self.invitations@, code@, i as int));
                }
                out
            },
            None => None,
        }
    }

    /// Replaces the invitation with the same id; `NotFound` when absent.
    pub fn update_invitation(&mut self, inv: Invitation) -> (r: Result<(), Error>)
        ensures
            final(self).boxes@ == old(self).boxes@,
            !has_invitation(old(self).invitations@, inv.id@) ==> (r matches Err(e) && e.kind
                == ErrorKind::NotFound) && final(self).invitations@ == old(self).invitations@,
            has_invitation(old(self).invitations@, inv.id@) ==> exists|i: int|
                is_first_invitation(old(self).invitations@, inv.id@, i) && r is Ok && final(self).invitations@ == old(self).invitations@.update(i, inv),
    {
        match find_invitation(&self.invitations, &inv.id) {
            None => Err(Error::new(ErrorKind::NotFound, String::from_str("Invitation not found"))),
            Some(i) => {
                proof {
                    assert(is_first_invitation(self.invitations@, inv.id@, i as int));
                }
                self.invitations[i] = inv;
                Ok(())
            },
        }
    }

    /// The redemption commit: the conditional write that makes
    /// redemption single-use. It succeeds only while the stored record
    /// is still unopened, so of any number of racing redemptions exactly
    /// the first to commit wins; every later one observes `Forbidden`
    /// and the stored link never changes again.
    pub fn commit_redemption(&mut self, inv: Invitation) -> (r: Result<(), Error>)
        ensures
            final(self).boxes@ == old(self).boxes@,
            !has_invitation(old(self).invitations@, inv.id@) ==> (r matches Err(e) && e.kind
                == ErrorKind::NotFound) && final(self).invitations@ == old(self).invitations@,
            has_invitation(old(self).invitations@, inv.id@) ==> exists|i: int|
                #![trigger is_first_invitation(old(self).invitations@, inv.id@, i)]
                {
                    &&& is_first_invitation(old(self).invitations@, inv.id@, i)
                    &&& if old(self).invitations@[i].opened {
                        (r matches Err(e) && e.kind == ErrorKind::Forbidden) && final(self).invitations@ == old(self).invitations@
                    } else {
                        r is Ok && final(self).invitations@ == old(self).invitations@.update(i, inv)
                    }
                },
    {
        match find_invitation(&self.invitations, &inv.id) {
            None => Err(Error::new(ErrorKind::NotFound, String::from_str("Invitation not found"))),
            Some(i) => {
                proof {
                    assert(is_first_invitation(self.invitations@, inv.id@, i as int));
                }
                if self.invitations[i].opened {
                    return Err(
                        Error::new(
                            ErrorKind::Forbidden,
                            String::from_str("Invitation has already been used"),
                        ),
                    );
                }
                self.invitations[i] = inv;
                Ok(())
            },
        }
    }
}

} // verus!
