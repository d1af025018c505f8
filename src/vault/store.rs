//! The entry store: creating, listing, revealing, updating and removing
//! entries, always by identifier and only while the vault is unlocked.
use vstd::prelude::*;
use super::{access_error, has_id, ids_unique, Vault, VaultState, VaultView};
use crate::entry::{drafted, patched, public_of, Entry, EntryDraft, EntryId, EntryPublic, Timestamp, UpdateEntry};
use crate::error::{VaultError, VaultErrorKind, VaultErrorSeverity, VaultResult};
use crate::primitives::{now_unix_nanos, random_uuid};

verus! {

/// An entry after one of its secrets was revealed at a given time: last
/// use stamped, use counter one higher (it stays at `u64::MAX`).
pub open spec fn revealed(e: Entry, now: Timestamp) -> Entry {
    Entry {
        last_used: Some(now),
        uses: if e.uses < u64::MAX {
            (e.uses + 1) as u64
        } else {
            e.uses
        },
        ..e
    }
}

/// An entry with its favorite flag flipped.
pub open spec fn toggled(e: Entry) -> Entry {
    Entry { favorite: !e.favorite, ..e }
}

/// The position of the entry with an identifier, if any.
fn find_index(entries: &Vec<Entry>, id: &EntryId) -> (r: Option<usize>)
    ensures
        match r {
            Some(i) => i < entries@.len() && entries@[i as int].id == *id,
            None => !has_id(entries@, *id),
        },
{
    let mut i: usize = 0;
    while i < entries.len()
        invariant
            0 <= i <= entries@.len(),
            forall|j: int| 0 <= j < i ==> #[trigger] entries@[j].id != *id,
        decreases entries@.len() - i,
    {
        if entries[i].id == *id {
            return Some(i);
        }
        i = i + 1;
    }
    None
}

/// The error for an identifier that no entry has.
fn not_found() -> (r: VaultError)
    ensures
        r.kind == VaultErrorKind::NotFound,
        r.severity == VaultErrorSeverity::Soft,
{
    VaultError::new(VaultErrorKind::NotFound, VaultErrorSeverity::Soft, "Entry not found", "E_ENTRY_NOT_FOUND")
}

/// The current time.
fn now() -> (r: Timestamp) {
    Timestamp { unix_nanos: now_unix_nanos() }
}

impl Vault {
    /// Replaces the entry at a position by one with the same identifier.
    fn replace_entry(&mut self, i: usize, e: Entry)
        requires
            old(self)@.wf(),
            i < old(self)@.entries.len(),
            e.id == old(self)@.entries[i as int].id,
        ensures
            final(self)@ == (VaultView { entries: old(self)@.entries.update(i as int, e), ..old(self)@ }),
            final(self)@.wf(),
    {
        self.entries.set(i, e);
        assert(ids_unique(self@.entries)) by {
            assert forall|a: int, b: int|
                0 <= a < self@.entries.len() && 0 <= b < self@.entries.len() && a != b implies #[trigger] self@.entries[a].id
                    != #[trigger] self@.entries[b].id by {
                assert(old(self)@.entries[a].id != old(self)@.entries[b].id);
            }
        }
    }

    /// Adds an entry made from `data` with identifier `id`, created and
    /// modified at `now`, to the end of the store. An identifier already in
    /// use is refused. Does not persist.
    pub fn insert_entry(&mut self, data: &EntryDraft, id: EntryId, now: Timestamp) -> (r: VaultResult<EntryPublic>)
        requires
            old(self)@.wf(),
        ensures
            final(self)@.wf(),
            r is Err ==> final(self)@ == old(self)@,
            old(self)@.state != VaultState::Unlocked ==> (r matches Err(e) && e.kind
                == VaultErrorKind::Access && e.severity == VaultErrorSeverity::Blocking),
            old(self)@.state == VaultState::Unlocked && has_id(old(self)@.entries, id) ==> (
            r matches Err(e) && e.kind == VaultErrorKind::Internal),
            old(self)@.state == VaultState::Unlocked && !has_id(old(self)@.entries, id) ==> {
                &&& r == Ok::<EntryPublic, VaultError>(public_of(drafted(*data, id, now)))
                &&& final(self)@ == (VaultView {
                    entries: old(self)@.entries.push(drafted(*data, id, now)),
                    ..old(self)@
                })
            },
    {
        match self.state {
            VaultState::Unlocked => {},
            _ => return Err(access_error("Vault is locked")),
        }
        if find_index(&self.entries, &id).is_some() {
            return Err(
                VaultError::new(
                    VaultErrorKind::Internal,
                    VaultErrorSeverity::Blocking,
                    "Entry identifier already in use",
                    "E_ENTRY_ID",
                ),
            );
        }
        let entry = Entry::from_draft(data, id, now);
        let public = EntryPublic::from(&entry);
        self.entries.push(entry);
        assert(ids_unique(self@.entries)) by {
            assert forall|a: int, b: int|
                0 <= a < self@.entries.len() && 0 <= b < self@.entries.len() && a != b implies #[trigger] self@.entries[a].id
                    != #[trigger] self@.entries[b].id by {
                let n = old(self)@.entries.len() as int;
                if a < n && b < n {
                    assert(old(self)@.entries[a].id != old(self)@.entries[b].id);
                } else if a < n {
                    assert(old(self)@.entries[a].id == self@.entries[a].id);
                } else if b < n {
                    assert(old(self)@.entries[b].id == self@.entries[b].id);
                }
            }
        }
        Ok(public)
    }

    /// Creates an entry from `data` with a fresh random identifier and the
    /// current time, as `insert_entry` does; it fails only if the drawn
    /// identifier is already in use. Does not persist.
    pub fn new_entry(&mut self, data: &EntryDraft) -> (r: VaultResult<EntryPublic>)
        requires
            old(self)@.wf(),
        ensures
            final(self)@.wf(),
            r is Err ==> final(self)@ == old(self)@,
            old(self)@.state != VaultState::Unlocked ==> (r matches Err(e) && e.kind
                == VaultErrorKind::Access && e.severity == VaultErrorSeverity::Blocking),
            old(self)@.state == VaultState::Unlocked ==> (r matches Err(e) ==> e.kind
                == VaultErrorKind::Internal),
            old(self)@.state == VaultState::Unlocked && old(self)@.entries.len() == 0 ==> r is Ok,
            r is Ok ==> exists|id: EntryId, now: Timestamp|
                !has_id(old(self)@.entries, id) && r == Ok::<EntryPublic, VaultError>(
                    public_of(#[trigger] drafted(*data, id, now)),
                ) && final(self)@ == (VaultView {
                    entries: old(self)@.entries.push(drafted(*data, id, now)),
                    ..old(self)@
                }),
    {
        let id = EntryId { value: random_uuid() };
        let now = now();
        self.insert_entry(data, id, now)
    }

    /// The public projection of every entry, in insertion order. Only while
    /// `Unlocked`.
    pub fn get_entries(&self) -> (r: VaultResult<Vec<EntryPublic>>)
        requires
            self@.wf(),
        ensures
            self@.state != VaultState::Unlocked ==> (r matches Err(e) && e.kind
                == VaultErrorKind::Access && e.severity == VaultErrorSeverity::Blocking),
            self@.state == VaultState::Unlocked ==> (r matches Ok(v) && v@ == self@.entries.map_values(
                |e: Entry| public_of(e),
            )),
    {
        match self.state {
            VaultState::Unlocked => {},
            _ => return Err(access_error("Vault is locked")),
        }
        let mut out: Vec<EntryPublic> = Vec::new();
        let mut i: usize = 0;
        while i < self.entries.len()
            invariant
                0 <= i <= self@.entries.len(),
                out@ == self@.entries.subrange(0, i as int).map_values(|e: Entry| public_of(e)),
            decreases self@.entries.len() - i,
        {
            out.push(EntryPublic::from(&self.entries[i]));
            proof {
                assert(self@.entries.subrange(0, i + 1) =~= self@.entries.subrange(0, i as int).push(self@.entries[i as int]));
            }
            assert(out@ =~= self@.entries.subrange(0, i + 1).map_values(|e: Entry| public_of(e)));
            i = i + 1;
        }
        assert(self@.entries.subrange(0, i as int) =~= self@.entries);
        Ok(out)
    }

    /// Reveals the password of an entry as `get_entry_password` does, with
    /// the use stamped at `now`.
    pub fn reveal_password_at(&mut self, id: &EntryId, now: Timestamp) -> (r: VaultResult<String>)
        requires
            old(self)@.wf(),
        ensures
            final(self)@.wf(),
            r is Err ==> final(self)@ == old(self)@,
            old(self)@.state != VaultState::Unlocked ==> (r matches Err(e) && e.kind
                == VaultErrorKind::Access && e.severity == VaultErrorSeverity::Blocking),
            old(self)@.state == VaultState::Unlocked && !has_id(old(self)@.entries, *id) ==> (
            r matches Err(e) && e.kind == VaultErrorKind::NotFound && e.severity
                == VaultErrorSeverity::Soft),
            has_id(old(self)@.entries, *id) ==> exists|i: int|
                0 <= i < old(self)@.entries.len() && #[trigger] old(self)@.entries[i].id == *id
                    && r == Ok::<String, VaultError>(old(self)@.entries[i].password) && final(self)@ == (VaultView {
                    entries: old(self)@.entries.update(i, revealed(old(self)@.entries[i], now)),
                    ..old(self)@
                }),
    {
        match self.state {
            VaultState::Unlocked => {},
            _ => return Err(access_error("Vault is locked")),
        }
        let i = match find_index(&self.entries, id) {
            Some(i) => i,
            None => return Err(not_found()),
        };
        let mut e = self.entries[i].duplicate();
        let secret = e.password.clone();
        e.last_used = Some(now);
        e.uses = if e.uses < u64::MAX { e.uses + 1 } else { e.uses };
        self.replace_entry(i, e);
        Ok(secret)
    }

    /// The password of the entry with identifier `id`. Revealing is a use:
    /// it stamps the last use with the current time and counts it, a change
    /// that the next save persists.
    pub fn get_entry_password(&mut self, id: &EntryId) -> (r: VaultResult<String>)
        requires
            old(self)@.wf(),
        ensures
            final(self)@.wf(),
            r is Err ==> final(self)@ == old(self)@,
            old(self)@.state != VaultState::Unlocked ==> (r matches Err(e) && e.kind
                == VaultErrorKind::Access && e.severity == VaultErrorSeverity::Blocking),
            old(self)@.state == VaultState::Unlocked && !has_id(old(self)@.entries, *id) ==> (
            r matches Err(e) && e.kind == VaultErrorKind::NotFound && e.severity
                == VaultErrorSeverity::Soft),
            has_id(old(self)@.entries, *id) ==> exists|i: int, now: Timestamp|
                0 <= i < old(self)@.entries.len() && old(self)@.entries[i].id == *id
                    && r == Ok::<String, VaultError>(old(self)@.entries[i].password) && final(self)@ == (VaultView {
                    entries: old(self)@.entries.update(i, #[trigger] revealed(old(self)@.entries[i], now)),
                    ..old(self)@
                }),
    {
        self.reveal_password_at(id, now())
    }

    /// Reveals the user name of an entry as `get_entry_name` does, with the
    /// use stamped at `now`.
    pub fn reveal_name_at(&mut self, id: &EntryId, now: Timestamp) -> (r: VaultResult<String>)
        requires
            old(self)@.wf(),
        ensures
            final(self)@.wf(),
            r is Err ==> final(self)@ == old(self)@,
            old(self)@.state != VaultState::Unlocked ==> (r matches Err(e) && e.kind
                == VaultErrorKind::Access && e.severity == VaultErrorSeverity::Blocking),
            old(self)@.state == VaultState::Unlocked && !has_id(old(self)@.entries, *id) ==> (
            r matches Err(e) && e.kind == VaultErrorKind::NotFound && e.severity
                == VaultErrorSeverity::Soft),
            has_id(old(self)@.entries, *id) ==> exists|i: int|
                0 <= i < old(self)@.entries.len() && #[trigger] old(self)@.entries[i].id == *id
                    && r == Ok::<String, VaultError>(old(self)@.entries[i].name) && final(self)@ == (VaultView {
                    entries: old(self)@.entries.update(i, revealed(old(self)@.entries[i], now)),
                    ..old(self)@
                }),
    {
        match self.state {
            VaultState::Unlocked => {},
            _ => return Err(access_error("Vault is locked")),
        }
        let i = match find_index(&self.entries, id) {
            Some(i) => i,
            None => return Err(not_found()),
        };
        let mut e = self.entries[i].duplicate();
        let secret = e.name.clone();
        e.last_used = Some(now);
        e.uses = if e.uses < u64::MAX { e.uses + 1 } else { e.uses };
        self.replace_entry(i, e);
        Ok(secret)
    }

    /// The user name of the entry with identifier `id`; a use, as for
    /// `get_entry_password`.
    pub fn get_entry_name(&mut self, id: &EntryId) -> (r: VaultResult<String>)
        requires
            old(self)@.wf(),
        ensures
            final(self)@.wf(),
            r is Err ==> final(self)@ == old(self)@,
            old(self)@.state != VaultState::Unlocked ==> (r matches Err(e) && e.kind
                == VaultErrorKind::Access && e.severity == VaultErrorSeverity::Blocking),
            old(self)@.state == VaultState::Unlocked && !has_id(old(self)@.entries, *id) ==> (
            r matches Err(e) && e.kind == VaultErrorKind::NotFound && e.severity
                == VaultErrorSeverity::Soft),
            has_id(old(self)@.entries, *id) ==> exists|i: int, now: Timestamp|
                0 <= i < old(self)@.entries.len() && old(self)@.entries[i].id == *id
                    && r == Ok::<String, VaultError>(old(self)@.entries[i].name) && final(self)@ == (VaultView {
                    entries: old(self)@.entries.update(i, #[trigger] revealed(old(self)@.entries[i], now)),
                    ..old(self)@
                }),
    {
        self.reveal_name_at(id, now())
    }


    /// Applies a patch to an entry as `update_entry` does, stamping the
    /// modification time with `now`.
    pub fn update_entry_at(&mut self, id: &EntryId, updated: &UpdateEntry, now: Timestamp) -> (r:
        VaultResult<EntryPublic>)
        requires
            old(self)@.wf(),
        ensures
            final(self)@.wf(),
            r is Err ==> final(self)@ == old(self)@,
            old(self)@.state != VaultState::Unlocked ==> (r matches Err(e) && e.kind
                == VaultErrorKind::Access && e.severity == VaultErrorSeverity::Blocking),
            old(self)@.state == VaultState::Unlocked && !has_id(old(self)@.entries, *id) ==> (
            r matches Err(e) && e.kind == VaultErrorKind::NotFound && e.severity
                == VaultErrorSeverity::Soft),
            has_id(old(self)@.entries, *id) ==> exists|i: int|
                0 <= i < old(self)@.entries.len() && #[trigger] old(self)@.entries[i].id == *id
                    && r == Ok::<EntryPublic, VaultError>(
                    public_of(patched(old(self)@.entries[i], *updated, now)),
                ) && final(self)@ == (VaultView {
                    entries: old(self)@.entries.update(
                        i,
                        patched(old(self)@.entries[i], *updated, now),
                    ),
                    ..old(self)@
                }),
    {
        match self.state {
            VaultState::Unlocked => {},
            _ => return Err(access_error("Vault is locked")),
        }
        let i = match find_index(&self.entries, id) {
            Some(i) => i,
            None => return Err(not_found()),
        };
        let mut e = self.entries[i].duplicate();
        e.apply(updated, now);
        let public = EntryPublic::from(&e);
        self.replace_entry(i, e);
        Ok(public)
    }

    /// Applies the fields present in `updated` to the entry with identifier
    /// `id` and stamps its modification time with the current time. Does
    /// not persist.
    pub fn update_entry(&mut self, id: &EntryId, updated: &UpdateEntry) -> (r: VaultResult<
        EntryPublic,
    >)
        requires
            old(self)@.wf(),
        ensures
            final(self)@.wf(),
            r is Err ==> final(self)@ == old(self)@,
            old(self)@.state != VaultState::Unlocked ==> (r matches Err(e) && e.kind
                == VaultErrorKind::Access && e.severity == VaultErrorSeverity::Blocking),
            old(self)@.state == VaultState::Unlocked && !has_id(old(self)@.entries, *id) ==> (
            r matches Err(e) && e.kind == VaultErrorKind::NotFound && e.severity
                == VaultErrorSeverity::Soft),
            has_id(old(self)@.entries, *id) ==> exists|i: int, now: Timestamp|
                0 <= i < old(self)@.entries.len() && old(self)@.entries[i].id == *id && r
                    == Ok::<EntryPublic, VaultError>(
                    public_of(patched(old(self)@.entries[i], *updated, now)),
                ) && final(self)@ == (VaultView {
                    entries: old(self)@.entries.update(
                        i,
                        #[trigger] patched(old(self)@.entries[i], *updated, now),
                    ),
                    ..old(self)@
                }),
    {
        self.update_entry_at(id, updated, now())
    }

    /// Flips the favorite flag of the entry with identifier `id`.
    pub fn toggle_favorite(&mut self, id: &EntryId) -> (r: VaultResult<EntryPublic>)
        requires
            old(self)@.wf(),
        ensures
            final(self)@.wf(),
            r is Err ==> final(self)@ == old(self)@,
            old(self)@.state != VaultState::Unlocked ==> (r matches Err(e) && e.kind
                == VaultErrorKind::Access && e.severity == VaultErrorSeverity::Blocking),
            old(self)@.state == VaultState::Unlocked && !has_id(old(self)@.entries, *id) ==> (
            r matches Err(e) && e.kind == VaultErrorKind::NotFound && e.severity
                == VaultErrorSeverity::Soft),
            has_id(old(self)@.entries, *id) ==> exists|i: int|
                0 <= i < old(self)@.entries.len() && #[trigger] old(self)@.entries[i].id == *id
                    && r == Ok::<EntryPublic, VaultError>(public_of(toggled(old(self)@.entries[i])))
                    && final(self)@ == (VaultView {
                    entries: old(self)@.entries.update(i, toggled(old(self)@.entries[i])),
                    ..old(self)@
                }),
    {
        match self.state {
            VaultState::Unlocked => {},
            _ => return Err(access_error("Vault is locked")),
        }
        let i = match find_index(&self.entries, id) {
            Some(i) => i,
            None => return Err(not_found()),
        };
        let mut e = self.entries[i].duplicate();
        e.favorite = !e.favorite;
        let public = EntryPublic::from(&e);
        self.replace_entry(i, e);
        Ok(public)
    }

    /// Removes the entry with identifier `id`; the others keep their order.
    pub fn delete_entry(&mut self, id: &EntryId) -> (r: VaultResult<()>)
        requires
            old(self)@.wf(),
        ensures
            final(self)@.wf(),
            r is Err ==> final(self)@ == old(self)@,
            old(self)@.state != VaultState::Unlocked ==> (r matches Err(e) && e.kind
                == VaultErrorKind::Access && e.severity == VaultErrorSeverity::Blocking),
            old(self)@.state == VaultState::Unlocked && !has_id(old(self)@.entries, *id) ==> (
            r matches Err(e) && e.kind == VaultErrorKind::NotFound && e.severity
                == VaultErrorSeverity::Soft),
            has_id(old(self)@.entries, *id) ==> exists|i: int|
                0 <= i < old(self)@.entries.len() && #[trigger] old(self)@.entries[i].id == *id
                    && r is Ok && final(self)@ == (VaultView {
                    entries: old(self)@.entries.remove(i),
                    ..old(self)@
                }),
    {
        match self.state {
            VaultState::Unlocked => {},
            _ => return Err(access_error("Vault is locked")),
        }
        let i = match find_index(&self.entries, id) {
            Some(i) => i,
            None => return Err(not_found()),
        };
        self.entries.remove(i);
        assert(ids_unique(self@.entries)) by {
            assert forall|a: int, b: int|
                0 <= a < self@.entries.len() && 0 <= b < self@.entries.len() && a != b implies #[trigger] self@.entries[a].id
                    != #[trigger] self@.entries[b].id by {
                let oa = if a < i { a } else { a + 1 };
                let ob = if b < i { b } else { b + 1 };
                assert(self@.entries[a] == old(self)@.entries[oa]);
                assert(self@.entries[b] == old(self)@.entries[ob]);
                assert(old(self)@.entries[oa].id != old(self)@.entries[ob].id);
            }
        }
        Ok(())
    }

}

} // verus!
