//! Entry records and their projections: the public view without the
//! password, the draft a new entry is made from, and the partial update.
use vstd::prelude::*;

verus! {

/// The opaque identifier of an entry: the 128-bit value of a random UUID.
#[derive(Clone, Copy, Debug, PartialEq, Eq, Structural)]
pub struct EntryId {
    pub value: u128,
}

/// A point in time, in nanoseconds since the Unix epoch (UTC).
#[derive(Clone, Copy, Debug, PartialEq, Eq, Structural)]
pub struct Timestamp {
    pub unix_nanos: i128,
}

/// The strength classification of an entry's password.
#[derive(Clone, Copy, Debug, PartialEq, Eq, Structural)]
pub enum Strength {
    Unrated,
    Weak,
    Fair,
    Strong,
}

/// A stored credential.
pub struct Entry {
    pub id: EntryId,
    pub created_at: Timestamp,
    pub modified_at: Timestamp,
    pub last_used: Option<Timestamp>,
    pub uses: u64,
    pub label: String,
    pub url: String,
    pub name: String,
    pub password: String,
    pub strength: Strength,
    pub favorite: bool,
}

/// An entry without its password: the only form handed to callers that
/// are not asking for the secret itself.
#[derive(Debug)]
pub struct EntryPublic {
    pub id: EntryId,
    pub created_at: Timestamp,
    pub modified_at: Timestamp,
    pub last_used: Option<Timestamp>,
    pub uses: u64,
    pub label: String,
    pub url: String,
    pub name: String,
    pub strength: Strength,
    pub favorite: bool,
}

/// What a caller supplies for a new entry; the vault fills in the rest.
pub struct EntryDraft {
    pub label: String,
    pub url: String,
    pub name: String,
    pub password: String,
    pub strength: Option<Strength>,
    pub favorite: Option<bool>,
}

/// A partial update: each field that is present replaces the entry's own.
pub struct UpdateEntry {
    pub label: Option<String>,
    pub url: Option<String>,
    pub name: Option<String>,
    pub password: Option<String>,
    pub strength: Option<Strength>,
}

/// The public projection of an entry.
pub open spec fn public_of(e: Entry) -> EntryPublic {
    EntryPublic {
        id: e.id,
        created_at: e.created_at,
        modified_at: e.modified_at,
        last_used: e.last_used,
        uses: e.uses,
        label: e.label,
        url: e.url,
        name: e.name,
        strength: e.strength,
        favorite: e.favorite,
    }
}

/// The entry made from a draft with a given identifier at a given time.
pub open spec fn drafted(d: EntryDraft, id: EntryId, now: Timestamp) -> Entry {
    Entry {
        id,
        created_at: now,
        modified_at: now,
        last_used: None,
        uses: 0,
        label: d.label,
        url: d.url,
        name: d.name,
        password: d.password,
        strength: match d.strength {
            Some(s) => s,
            None => Strength::Unrated,
        },
        favorite: match d.favorite {
            Some(f) => f,
            None => false,
        },
    }
}

/// An entry with a patch applied at a given time.
pub open spec fn patched(e: Entry, p: UpdateEntry, now: Timestamp) -> Entry {
    Entry {
        modified_at: now,
        label: match p.label {
            Some(v) => v,
            None => e.label,
        },
        url: match p.url {
            Some(v) => v,
            None => e.url,
        },
        name: match p.name {
            Some(v) => v,
            None => e.name,
        },
        password: match p.password {
            Some(v) => v,
            None => e.password,
        },
        strength: match p.strength {
            Some(v) => v,
            None => e.strength,
        },
        ..e
    }
}

/// A string that is present, else a copy of the fallback.
fn pick(v: &Option<String>, fallback: &String) -> (r: String)
    ensures
        r == match *v {
            Some(s) => s,
            None => *fallback,
        },
{
    match v {
        Some(s) => s.clone(),
        None => fallback.clone(),
    }
}

impl Entry {
    /// A field-for-field copy.
    pub fn duplicate(&self) -> (r: Entry)
        ensures
            r == *self,
    {
        Entry {
            id: self.id,
            created_at: self.created_at,
            modified_at: self.modified_at,
            last_used: self.last_used,
            uses: self.uses,
            label: self.label.clone(),
            url: self.url.clone(),
            name: self.name.clone(),
            password: self.password.clone(),
            strength: self.strength,
            favorite: self.favorite,
        }
    }

    /// Makes an entry from a draft: the given identifier and time, no use
    /// yet, and the default strength and favorite flag where the draft has
    /// none.
    pub fn from_draft(draft: &EntryDraft, id: EntryId, now: Timestamp) -> (r: Entry)
        ensures
            r == drafted(*draft, id, now),
    {
        Entry {
            id,
            created_at: now,
            modified_at: now,
            last_used: None,
            uses: 0,
            label: draft.label.clone(),
            url: draft.url.clone(),
            name: draft.name.clone(),
            password: draft.password.clone(),
            strength: match draft.strength {
                Some(s) => s,
                None => Strength::Unrated,
            },
            favorite: match draft.favorite {
                Some(f) => f,
                None => false,
            },
        }
    }

    /// Applies the fields present in a patch and stamps the modification time.
    pub fn apply(&mut self, patch: &UpdateEntry, now: Timestamp)
        ensures
            *final(self) == patched(*old(self), *patch, now),
    {
        self.label = pick(&patch.label, &self.label);
        self.url = pick(&patch.url, &self.url);
        self.name = pick(&patch.name, &self.name);
        self.password = pick(&patch.password, &self.password);
        if let Some(s) = patch.strength {
            self.strength = s;
        }
        self.modified_at = now;
    }
}

impl<'a> From<&'a Entry> for EntryPublic {
    /// Every field of the entry but the password.
    fn from(entry: &'a Entry) -> (r: EntryPublic) {
        EntryPublic {
            id: entry.id,
            created_at: entry.created_at,
            modified_at: entry.modified_at,
            last_used: entry.last_used,
            uses: entry.uses,
            label: entry.label.clone(),
            url: entry.url.clone(),
            name: entry.name.clone(),
            strength: entry.strength,
            favorite: entry.favorite,
        }
    }
}

impl<'a> vstd::std_specs::convert::FromSpecImpl<&'a Entry> for EntryPublic {
    open spec fn obeys_from_spec() -> bool {
        true
    }

    open spec fn from_spec(entry: &'a Entry) -> EntryPublic {
        public_of(*entry)
    }
}

} // verus!
