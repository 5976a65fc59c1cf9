//! Per-guild configuration: the record the config command writes and the
//! store that keeps at most one record per guild, with replace-on-write
//! semantics.

use vstd::map::*;
use vstd::prelude::*;

verus! {

/// The configuration record of one guild.
#[derive(Debug, Clone, Copy, PartialEq, Eq, Structural)]
pub struct GuildConfig {
    pub registration_channel: u64,
    pub manual_channel: u64,
    pub admin_channel: u64,
    pub admin_role: u64,
    pub advanced_role: u64,
}

/// An in-memory configuration store, modelled as a map from guild id to its
/// record. At most one record per guild: an upsert replaces the whole record.
pub struct ConfigStore {
    rows: Vec<(u64, GuildConfig)>,
}

impl ConfigStore {
    /// Each guild id occurs in at most one row.
    #[verifier::type_invariant]
    spec fn wf(&self) -> bool {
        forall|i: int, j: int|
            0 <= i < j < self.rows@.len() ==> (#[trigger] self.rows@[i]).0 != (
            #[trigger] self.rows@[j]).0
    }

    /// The stored rows, as a map from guild id to record.
    pub closed spec fn view(&self) -> Map<u64, GuildConfig> {
        Map::new(
            |g: u64| exists|i: int| 0 <= i < self.rows@.len() && (#[trigger] self.rows@[i]).0 == g,
            |g: u64|
                {
                    let i = choose|i: int|
                        0 <= i < self.rows@.len() && (#[trigger] self.rows@[i]).0 == g;
                    self.rows@[i].1
                },
        )
    }

    /// A row pins down both the domain and the value of the view.
    proof fn lemma_row_view(&self, i: int)
        requires
            self.wf(),
            0 <= i < self.rows@.len(),
        ensures
            self@.contains_key(self.rows@[i].0),
            self@[self.rows@[i].0] == self.rows@[i].1,
    {
        let g = self.rows@[i].0;
        let w = choose|k: int| 0 <= k < self.rows@.len() && (#[trigger] self.rows@[k]).0 == g;
        assert(w == i);
    }

    /// An empty store.
    pub fn new() -> (s: ConfigStore)
        ensures
            s@ == Map::<u64, GuildConfig>::empty(),
    {
        let s = ConfigStore { rows: Vec::new() };
        proof {
            assert(s@ =~= Map::<u64, GuildConfig>::empty());
        }
        s
    }

    /// The record of `guild_id`, or nothing when the guild has none.
    pub fn get(&self, guild_id: u64) -> (r: Option<GuildConfig>)
        ensures
            r == if self@.contains_key(guild_id) {
                Some(self@[guild_id])
            } else {
                None::<GuildConfig>
            },
    {
        proof {
            use_type_invariant(&*self);
        }
        let n = self.rows.len();
        let mut i: usize = 0;
        while i < n
            invariant
                n == self.rows@.len(),
                i <= n,
                self.wf(),
                forall|k: int| 0 <= k < i ==> (#[trigger] self.rows@[k]).0 != guild_id,
            decreases n - i,
        {
            if self.rows[i].0 == guild_id {
                proof {
                    self.lemma_row_view(i as int);
                }
                return Some(self.rows[i].1);
            }
            i += 1;
        }
        proof {
            assert(!self@.contains_key(guild_id));
        }
        None
    }

    /// Writes the record of `guild_id`, replacing any earlier one whole.
    pub fn upsert(&mut self, guild_id: u64, config: GuildConfig)
        ensures
            final (self)@ == old(self)@.insert(guild_id, config),
    {
        proof {
            use_type_invariant(&*self);
        }
        let ghost old_rows = self.rows@;
        let mut rows: Vec<(u64, GuildConfig)> = Vec::new();
        std::mem::swap(&mut rows, &mut self.rows);
        let n = rows.len();
        let mut idx: Option<usize> = None;
        let mut i: usize = 0;
        while i < n
            invariant
                n == rows@.len(),
                i <= n,
                rows@ == old_rows,
                match idx {
                    Some(f) => f < n && rows@[f as int].0 == guild_id,
                    None => forall|k: int| 0 <= k < i ==> (#[trigger] rows@[k]).0 != guild_id,
                },
            decreases n - i,
        {
            if idx.is_none() && rows[i].0 == guild_id {
                idx = Some(i);
            }
            i += 1;
        }
        match idx {
            Some(f) => {
                rows.set(f, (guild_id, config));
                proof {
                    assert(forall|k: int|
                        0 <= k < n ==> (#[trigger] rows@[k]).0 == old_rows[k].0);
                }
            },
            None => {
                rows.push((guild_id, config));
            },
        }
        self.rows = rows;
        proof {
            let k0: int = match idx {
                Some(f) => f as int,
                None => n as int,
            };
            assert(self.rows@[k0].0 == guild_id);
            self.lemma_row_view(k0);
            let mnew = self@;
            let mold = old(self)@.insert(guild_id, config);
            assert_maps_equal!(mnew, mold, g => {
                if g != guild_id {
                    if exists|k: int| 0 <= k < old_rows.len() && (#[trigger] old_rows[k]).0 == g {
                        let k = choose|k: int|
                            0 <= k < old_rows.len() && (#[trigger] old_rows[k]).0 == g;
                        assert(self.rows@[k].0 == g);
                        self.lemma_row_view(k);
                        old(self).lemma_row_view(k);
                    } else {
                        assert forall|k: int|
                            0 <= k < self.rows@.len() implies (#[trigger] self.rows@[k]).0 != g by {
                            if k < n {
                                assert(old_rows[k].0 != g);
                            }
                        }
                    }
                }
            });
        }
    }
}

/// Law: writing a config for guild `g` and then reading `g` yields exactly
/// the fields written, and a second write for `g` replaces the first whole —
/// the store after two writes is the store after the second alone.
pub proof fn lemma_config_roundtrip(m: Map<u64, GuildConfig>, g: u64, c1: GuildConfig, c2: GuildConfig)
    ensures
        m.insert(g, c1).contains_key(g),
        m.insert(g, c1)[g] == c1,
        m.insert(g, c1).insert(g, c2) == m.insert(g, c2),
{
    assert(m.insert(g, c1).insert(g, c2) =~= m.insert(g, c2));
}

} // verus!
