//! The six negotiable H2 settings. They start at the protocol defaults and
//! change only when a peer SETTINGS frame is applied; identifiers outside
//! 1..=6 are ignored.

use vstd::prelude::*;
use crate::codec::Setting;

verus! {

/// The six settings of an H2 connection.
#[derive(Debug, Clone, Copy, PartialEq, Eq, Structural)]
pub struct H2Settings {
    pub settings_header_table_size: u32,
    pub settings_enable_push: bool,
    pub settings_max_concurrent_streams: u32,
    pub settings_initial_window_size: u32,
    pub settings_max_frame_size: u32,
    pub settings_max_header_list_size: u32,
}

impl H2Settings {
    /// The protocol defaults: header table 4096, push enabled, unlimited
    /// concurrent streams, window 65535, frame size 16384, unlimited header
    /// list.
    pub open spec fn spec_default() -> H2Settings {
        H2Settings {
            settings_header_table_size: 4096,
            settings_enable_push: true,
            settings_max_concurrent_streams: 0xffffffff,
            settings_initial_window_size: 0xffff,
            settings_max_frame_size: 0x4000,
            settings_max_header_list_size: 0xffffffff,
        }
    }
}

impl Default for H2Settings {
    fn default() -> (r: H2Settings)
        ensures
            r == H2Settings::spec_default(),
    {
        H2Settings {
            settings_header_table_size: 4096,
            settings_enable_push: true,
            settings_max_concurrent_streams: 0xffffffff,
            settings_initial_window_size: 0xffff,
            settings_max_frame_size: 0x4000,
            settings_max_header_list_size: 0xffffffff,
        }
    }
}

/// The state after applying one SETTINGS entry: identifiers 1..=6 overwrite
/// their field, all others leave the state unchanged.
pub open spec fn spec_apply_setting(s: H2Settings, x: Setting) -> H2Settings {
    if x.identifier == 1 {
        H2Settings { settings_header_table_size: x.value, ..s }
    } else if x.identifier == 2 {
        H2Settings { settings_enable_push: x.value == 1, ..s }
    } else if x.identifier == 3 {
        H2Settings { settings_max_concurrent_streams: x.value, ..s }
    } else if x.identifier == 4 {
        H2Settings { settings_initial_window_size: x.value, ..s }
    } else if x.identifier == 5 {
        H2Settings { settings_max_frame_size: x.value, ..s }
    } else if x.identifier == 6 {
        H2Settings { settings_max_header_list_size: x.value, ..s }
    } else {
        s
    }
}

/// The state after applying a whole SETTINGS payload, entry by entry in wire
/// order.
pub open spec fn spec_apply_settings(s: H2Settings, l: Seq<Setting>) -> H2Settings
    decreases l.len(),
{
    if l.len() == 0 {
        s
    } else {
        spec_apply_settings(spec_apply_setting(s, l[0]), l.skip(1))
    }
}

impl H2Settings {
    /// Apply a received SETTINGS payload to this state.
    pub fn apply_settings(&mut self, l: &Vec<Setting>)
        ensures
            *final(self) == spec_apply_settings(*old(self), l@),
    {
        let mut i: usize = 0;
        proof {
            assert(l@.skip(0) =~= l@);
        }
        while i < l.len()
            invariant
                i <= l@.len(),
                spec_apply_settings(*self, l@.skip(i as int)) == spec_apply_settings(
                    *old(self),
                    l@,
                ),
            decreases l@.len() - i,
        {
            let ghost pre = *self;
            let x = l[i];
            if x.identifier == 1 {
                self.settings_header_table_size = x.value;
            } else if x.identifier == 2 {
                self.settings_enable_push = x.value == 1;
            } else if x.identifier == 3 {
                self.settings_max_concurrent_streams = x.value;
            } else if x.identifier == 4 {
                self.settings_initial_window_size = x.value;
            } else if x.identifier == 5 {
                self.settings_max_frame_size = x.value;
            } else if x.identifier == 6 {
                self.settings_max_header_list_size = x.value;
            }
            proof {
                assert(*self == spec_apply_setting(pre, x));
                assert(l@.skip(i as int)[0] == x);
                assert(l@.skip(i as int).skip(1) =~= l@.skip(i as int + 1));
            }
            i += 1;
        }
        proof {
            assert(l@.skip(l@.len() as int) =~= Seq::<Setting>::empty());
        }
    }
}

/// No entry announces an initial window size above 2^31 - 1; such a value
/// is a flow-control error at receipt.
pub fn settings_window_ok(l: &Vec<Setting>) -> (r: bool)
    ensures
        r == forall|i: int|
            0 <= i < l@.len() ==> !((#[trigger] l@[i]).identifier == 4 && l@[i].value
                > 0x7fffffff),
{
    let mut i: usize = 0;
    while i < l.len()
        invariant
            i <= l@.len(),
            forall|j: int|
                0 <= j < i ==> !((#[trigger] l@[j]).identifier == 4 && l@[j].value > 0x7fffffff),
        decreases l@.len() - i,
    {
        if l[i].identifier == 4 && l[i].value > 0x7fffffff {
            return false;
        }
        i += 1;
    }
    true
}

/// Whether some entry of `l` writes the field selected by `id`.
pub open spec fn spec_sets_id(l: Seq<Setting>, id: u16) -> bool {
    exists|i: int| 0 <= i < l.len() && l[i].identifier == id
}

/// Applying a payload depends only on the fields it does not write: two
/// states that agree on every field without an entry in `l` are mapped to the
/// same state.
proof fn lemma_apply_depends_on_unset(s: H2Settings, t: H2Settings, l: Seq<Setting>)
    requires
        !spec_sets_id(l, 1) ==> s.settings_header_table_size == t.settings_header_table_size,
        !spec_sets_id(l, 2) ==> s.settings_enable_push == t.settings_enable_push,
        !spec_sets_id(l, 3) ==> s.settings_max_concurrent_streams
            == t.settings_max_concurrent_streams,
        !spec_sets_id(l, 4) ==> s.settings_initial_window_size == t.settings_initial_window_size,
        !spec_sets_id(l, 5) ==> s.settings_max_frame_size == t.settings_max_frame_size,
        !spec_sets_id(l, 6) ==> s.settings_max_header_list_size
            == t.settings_max_header_list_size,
    ensures
        spec_apply_settings(s, l) == spec_apply_settings(t, l),
    decreases l.len(),
{
    if l.len() == 0 {
        assert(spec_apply_settings(s, l) == s);
        assert(spec_apply_settings(t, l) == t);
        assert(forall|id: u16| !spec_sets_id(l, id));
        assert(s == t);
    } else {
        let s1 = spec_apply_setting(s, l[0]);
        let t1 = spec_apply_setting(t, l[0]);
        let r = l.skip(1);
        assert forall|id: u16| !spec_sets_id(r, id) && l[0].identifier != id implies !spec_sets_id(
            l,
            id,
        ) by {
            if spec_sets_id(l, id) {
                let i = choose|i: int| 0 <= i < l.len() && l[i].identifier == id;
                if i > 0 {
                    assert(r[i - 1].identifier == id);
                }
            }
        }
        lemma_apply_depends_on_unset(s1, t1, r);
    }
}

/// Applying a payload never changes a field it does not write.
proof fn lemma_apply_preserves_unset(s: H2Settings, l: Seq<Setting>)
    ensures
        !spec_sets_id(l, 1) ==> spec_apply_settings(s, l).settings_header_table_size
            == s.settings_header_table_size,
        !spec_sets_id(l, 2) ==> spec_apply_settings(s, l).settings_enable_push
            == s.settings_enable_push,
        !spec_sets_id(l, 3) ==> spec_apply_settings(s, l).settings_max_concurrent_streams
            == s.settings_max_concurrent_streams,
        !spec_sets_id(l, 4) ==> spec_apply_settings(s, l).settings_initial_window_size
            == s.settings_initial_window_size,
        !spec_sets_id(l, 5) ==> spec_apply_settings(s, l).settings_max_frame_size
            == s.settings_max_frame_size,
        !spec_sets_id(l, 6) ==> spec_apply_settings(s, l).settings_max_header_list_size
            == s.settings_max_header_list_size,
    decreases l.len(),
{
    if l.len() > 0 {
        let r = l.skip(1);
        lemma_apply_preserves_unset(spec_apply_setting(s, l[0]), r);
        assert forall|id: u16| spec_sets_id(r, id) implies spec_sets_id(l, id) by {
            let i = choose|i: int| 0 <= i < r.len() && r[i].identifier == id;
            assert(l[i + 1].identifier == id);
        }
        assert(l[0].identifier == l[0].identifier && 0 < l.len());
    }
}

/// Applying the same SETTINGS payload twice yields the same state as applying
/// it once.
pub proof fn lemma_settings_idempotent(s: H2Settings, l: Seq<Setting>)
    ensures
        spec_apply_settings(spec_apply_settings(s, l), l) == spec_apply_settings(s, l),
{
    let s1 = spec_apply_settings(s, l);
    lemma_apply_preserves_unset(s, l);
    lemma_apply_depends_on_unset(s1, s, l);
}

} // verus!
