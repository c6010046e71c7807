//! The startup configuration: a small set of boot-time flags consulted once
//! at startup.
//!
//! Two entries with the same variant tag are duplicates regardless of
//! payload: the set is keyed by tag, not by full value equality.  How the
//! set is persisted belongs to the platform's store; this module only holds
//! the set itself and the recovery decision taken when the store hands back
//! unreadable data.

use vstd::prelude::*;

verus! {

/// One boot-time flag, identified by its variant tag alone.
#[derive(Clone, Debug, PartialEq, Eq)]
pub enum NeoNexStartupConfig {
    /// Whether startup should attempt a native terminal backend.
    NativeTerminal(bool),
    /// A numeric trial flag.
    Test1(u16),
    /// A free-form text trial flag.
    Bla(String),
}

/// The variant tag that identifies a startup-config entry.
#[derive(Clone, Copy, Debug, PartialEq, Eq, Structural)]
pub enum ConfigTag {
    /// Tag of `NeoNexStartupConfig::NativeTerminal`.
    NativeTerminal,
    /// Tag of `NeoNexStartupConfig::Test1`.
    Test1,
    /// Tag of `NeoNexStartupConfig::Bla`.
    Bla,
}

impl NeoNexStartupConfig {
    /// The tag of this entry.
    pub open spec fn spec_tag(self) -> ConfigTag {
        match self {
            NeoNexStartupConfig::NativeTerminal(_) => ConfigTag::NativeTerminal,
            NeoNexStartupConfig::Test1(_) => ConfigTag::Test1,
            NeoNexStartupConfig::Bla(_) => ConfigTag::Bla,
        }
    }

    /// The tag of this entry; two entries count as equal exactly when
    /// their tags are.
    pub fn tag(&self) -> (t: ConfigTag)
        ensures
            t == self.spec_tag(),
    {
        match self {
            NeoNexStartupConfig::NativeTerminal(_) => ConfigTag::NativeTerminal,
            NeoNexStartupConfig::Test1(_) => ConfigTag::Test1,
            NeoNexStartupConfig::Bla(_) => ConfigTag::Bla,
        }
    }
}

/// The tag-keyed set of startup-config entries, in insertion order.
#[derive(Clone, Debug, PartialEq, Eq)]
pub struct NeoNexStartupConfigSet {
    /// The entries; no two share a tag.
    pub values: Vec<NeoNexStartupConfig>,
}

impl NeoNexStartupConfigSet {
    /// Whether a tag occurs among the entries.
    pub open spec fn spec_contains_tag(self, t: ConfigTag) -> bool {
        exists|i: int| 0 <= i < self.values@.len() && (#[trigger] self.values@[i]).spec_tag() == t
    }

    /// No two entries share a tag.
    pub open spec fn wf(self) -> bool {
        forall|i: int, j: int|
            0 <= i < j < self.values@.len() ==> (#[trigger] self.values@[i]).spec_tag() != (
            #[trigger] self.values@[j]).spec_tag()
    }

    /// The empty set.
    pub fn new() -> (s: NeoNexStartupConfigSet)
        ensures
            s.wf(),
            s.values@ =~= Seq::<NeoNexStartupConfig>::empty(),
    {
        NeoNexStartupConfigSet { values: Vec::new() }
    }

    /// How many entries the set holds.
    pub fn len(&self) -> (n: usize)
        ensures
            n == self.values@.len(),
    {
        self.values.len()
    }

    /// The position of the entry with this tag, if one is present.
    pub fn find_tag(&self, t: ConfigTag) -> (r: Option<usize>)
        ensures
            match r {
                Some(i) => i < self.values@.len() && self.values@[i as int].spec_tag() == t,
                None => !self.spec_contains_tag(t),
            },
    {
        let mut i: usize = 0;
        while i < self.values.len()
            invariant
                0 <= i <= self.values@.len(),
                forall|j: int| 0 <= j < i ==> (#[trigger] self.values@[j]).spec_tag() != t,
            decreases self.values@.len() - i,
        {
            if self.values[i].tag() == t {
                return Some(i);
            }
            i = i + 1;
        }
        None
    }

    /// Whether an entry with this tag is present.
    pub fn contains_tag(&self, t: ConfigTag) -> (r: bool)
        ensures
            r == self.spec_contains_tag(t),
    {
        match self.find_tag(t) {
            Some(_) => true,
            None => false,
        }
    }

    /// Inserts an entry.  If an entry with the same tag is already present
    /// the set is unchanged — duplicates are judged by tag alone, the held
    /// payload wins — and the call reports `false`; otherwise the entry is
    /// appended and the call reports `true`.
    pub fn insert(&mut self, value: NeoNexStartupConfig) -> (added: bool)
        requires
            old(self).wf(),
        ensures
            final(self).wf(),
            added == !old(self).spec_contains_tag(value.spec_tag()),
            added ==> final(self).values@ == old(self).values@.push(value),
            !added ==> final(self).values@ == old(self).values@,
            final(self).spec_contains_tag(value.spec_tag()),
    {
        let t = value.tag();
        match self.find_tag(t) {
            Some(_) => false,
            None => {
                let ghost pre = self.values@;
                self.values.push(value);
                proof {
                    assert forall|i: int, j: int|
                        0 <= i < j < self.values@.len() implies (#[trigger] self.values@[
                    i]).spec_tag() != (#[trigger] self.values@[j]).spec_tag() by {
                        if j < pre.len() {
                            assert(self.values@[i] == pre[i] && self.values@[j] == pre[j]);
                        } else {
                            assert(self.values@[i] == pre[i]);
                            assert(self.values@[j] == value);
                        }
                    }
                    let n = self.values@.len() - 1;
                    assert(self.values@[n].spec_tag() == value.spec_tag());
                }
                true
            },
        }
    }

    /// Whether no two entries share a tag: the runtime check for sets that
    /// arrive from outside (a store, a wire) rather than through `insert`.
    pub fn is_well_formed(&self) -> (r: bool)
        ensures
            r == self.wf(),
    {
        let mut i: usize = 0;
        while i < self.values.len()
            invariant
                0 <= i <= self.values@.len(),
                forall|a: int, b: int|
                    0 <= a < i && a < b < self.values@.len() ==> (#[trigger] self.values@[
                    a]).spec_tag() != (#[trigger] self.values@[b]).spec_tag(),
            decreases self.values@.len() - i,
        {
            let mut j: usize = i + 1;
            while j < self.values.len()
                invariant
                    0 <= i < j <= self.values@.len(),
                    forall|b: int|
                        i < b < j ==> (#[trigger] self.values@[b]).spec_tag()
                            != self.values@[i as int].spec_tag(),
                decreases self.values@.len() - j,
            {
                if self.values[i].tag() == self.values[j].tag() {
                    return false;
                }
                j = j + 1;
            }
            i = i + 1;
        }
        true
    }

    /// The payload of the `NativeTerminal` entry, if one is present.
    pub fn native_terminal(&self) -> (r: Option<bool>)
        ensures
            match r {
                Some(b) => exists|i: int|
                    0 <= i < self.values@.len() && (#[trigger] self.values@[i])
                        == NeoNexStartupConfig::NativeTerminal(b),
                None => !self.spec_contains_tag(ConfigTag::NativeTerminal),
            },
    {
        match self.find_tag(ConfigTag::NativeTerminal) {
            Some(i) => match &self.values[i] {
                NeoNexStartupConfig::NativeTerminal(b) => Some(*b),
                _ => None,  // unreachable: the found entry carries the NativeTerminal tag
            },
            None => None,
        }
    }
}

impl Default for NeoNexStartupConfigSet {
    /// The default configuration is the empty set.
    fn default() -> (s: NeoNexStartupConfigSet)
        ensures
            s.wf(),
            s.values@ =~= Seq::<NeoNexStartupConfig>::empty(),
    {
        NeoNexStartupConfigSet { values: Vec::new() }
    }
}

/// What the startup-config glue decides after the store was read: the set
/// to boot with, and whether the store's stale contents must be reset.
pub struct ConfigRecovery {
    /// The set the application boots with.
    pub set: NeoNexStartupConfigSet,
    /// The store held unreadable data and must be reset to defaults.
    pub reset_store: bool,
}

/// The recovery decision for a freshly read store.  A set that parsed is
/// taken as it is.  Unreadable data falls back to the default (empty) set;
/// the store is reset only when it actually held data — an absent or empty
/// store is simply fresh.
pub fn recover_config(parsed: Option<NeoNexStartupConfigSet>, raw_len: usize) -> (r: ConfigRecovery)
    requires
        parsed matches Some(s) ==> s.wf(),
    ensures
        r.set.wf(),
        match parsed {
            Some(s) => r.set == s && !r.reset_store,
            None => r.set.values@ =~= Seq::<NeoNexStartupConfig>::empty() && r.reset_store == (
            raw_len > 0),
        },
{
    match parsed {
        Some(s) => ConfigRecovery { set: s, reset_store: false },
        None => ConfigRecovery { set: NeoNexStartupConfigSet::new(), reset_store: raw_len > 0 },
    }
}

/// The toggle the interactive launcher applies before booting: the next
/// `NativeTerminal` payload is the negation of the last entry's payload if
/// that entry is a `NativeTerminal`, and `false` for an empty set or any
/// other last entry.
pub fn next_native_terminal_value(set: &NeoNexStartupConfigSet) -> (b: bool)
    ensures
        b == (set.values@.len() > 0 && set.values@.last() is NativeTerminal && !set.values@.last()
            ->NativeTerminal_0),
{
    if set.values.len() < 1 {
        false
    } else {
        match &set.values[set.values.len() - 1] {
            NeoNexStartupConfig::NativeTerminal(n) => !*n,
            _ => false,
        }
    }
}

} // verus!
