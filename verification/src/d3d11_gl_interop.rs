//! Sharing Direct3D textures with OpenGL: which texture is registered for which
//! stream, and which objects are locked. The driver's functions are called by the
//! caller.
use std::collections::HashMap;

use vstd::prelude::*;

use crate::text;

verus! {

broadcast use vstd::std_specs::hash::group_hash_axioms;

/// A texture that is registered for a stream.
#[derive(Debug, Clone, Copy, PartialEq, Eq, Structural)]
pub struct InteropEntry {
    pub gl_tex_id: u32,
    /// The object that registering gave.
    pub registered: usize,
    /// The address of the Direct3D texture.
    pub shared_handle: usize,
    pub width: u32,
    pub height: u32,
}

/// The registered textures, by the key of their stream, and the objects that
/// OpenGL holds.
#[derive(Debug)]
pub struct D3d11GlInterop {
    pub entries: HashMap<i64, InteropEntry>,
    pub locked_objects: Vec<usize>,
}

/// What to do to have a stream's texture registered.
#[derive(Debug, Clone, Copy, PartialEq, Eq, Structural)]
pub enum UpdateStep {
    /// It is registered already.
    Registered,
    /// Register it, after unregistering the object that is given.
    Register { unregister: Option<usize> },
}

/// How many registered textures have the object.
pub open spec fn times_registered(entries: Map<i64, InteropEntry>, object: usize) -> nat {
    entries.dom().filter(|k: i64| entries[k].registered == object).len()
}

/// The list holds the object of every registered texture, each as many times as there
/// are textures that have it.
pub open spec fn lists_objects(entries: Map<i64, InteropEntry>, list: Seq<usize>) -> bool {
    &&& list.len() == entries.dom().len()
    &&& forall|o: usize| #[trigger] list.to_multiset().count(o) == times_registered(entries, o)
}

proof fn keys_count_objects(entries: Map<i64, InteropEntry>, keys: Seq<i64>, o: usize)
    requires
        keys.no_duplicates(),
    ensures
        keys.map_values(|k: i64| entries[k].registered).to_multiset().count(o)
            == keys.to_set().filter(|k: i64| entries[k].registered == o).len(),
    decreases keys.len(),
{
    let object = |k: i64| entries[k].registered;
    let has = |k: i64| entries[k].registered == o;
    let list = keys.map_values(object);
    list.to_multiset_ensures();
    if keys.len() == 0 {
        assert(list =~= Seq::empty());
        Seq::<usize>::empty().to_multiset_ensures();
        assert(keys.to_set().filter(has) =~= Set::empty());
    } else {
        let k = keys.last();
        let before = keys.drop_last();
        let rest = before.map_values(object);
        assert forall|i: int, j: int| 0 <= i < before.len() && 0 <= j < before.len() && i != j implies
            before[i] != before[j] by {
            assert(keys[i] != keys[j]);
        }
        keys_count_objects(entries, before, o);
        rest.to_multiset_ensures();
        assert(list =~= rest.push(object(k)));
        assert(!before.to_set().contains(k)) by {
            if before.to_set().contains(k) {
                let i = choose|i: int| 0 <= i < before.len() && before[i] == k;
                assert(keys[i] != keys[keys.len() - 1]);
            }
        }
        assert(keys =~= before.push(k));
        assert(keys.to_set() =~= before.to_set().insert(k));
        if has(k) {
            assert(keys.to_set().filter(has) =~= before.to_set().filter(has).insert(k));
        } else {
            assert(keys.to_set().filter(has) =~= before.to_set().filter(has));
        }
    }
}

proof fn keys_list_objects(entries: Map<i64, InteropEntry>, keys: Seq<i64>)
    requires
        keys.no_duplicates(),
        keys.to_set() == entries.dom(),
    ensures
        lists_objects(entries, keys.map_values(|k: i64| entries[k].registered)),
{
    let list = keys.map_values(|k: i64| entries[k].registered);
    keys.unique_seq_to_set();
    assert forall|o: usize| #[trigger] list.to_multiset().count(o) == times_registered(
        entries,
        o,
    ) by {
        keys_count_objects(entries, keys, o);
    }
}

/// The entries with the first `n` keys removed.
pub open spec fn without_keys(entries: Map<i64, InteropEntry>, keys: Seq<i64>) -> Map<
    i64,
    InteropEntry,
>
    decreases keys.len(),
{
    if keys.len() == 0 {
        entries
    } else {
        without_keys(entries, keys.drop_last()).remove(keys.last())
    }
}

/// The objects of the entries that the keys remove, in the order of the keys.
pub open spec fn removed_objects(entries: Map<i64, InteropEntry>, keys: Seq<i64>) -> Seq<usize>
    decreases keys.len(),
{
    if keys.len() == 0 {
        Seq::empty()
    } else {
        let before = removed_objects(entries, keys.drop_last());
        let left = without_keys(entries, keys.drop_last());
        if left.contains_key(keys.last()) {
            before.push(left[keys.last()].registered)
        } else {
            before
        }
    }
}

impl D3d11GlInterop {
    /// Nothing registered and nothing locked.
    pub fn try_new() -> (r: D3d11GlInterop)
        ensures
            r.entries@ == Map::<i64, InteropEntry>::empty(),
            r.locked_objects@ == Seq::<usize>::empty(),
    {
        D3d11GlInterop { entries: HashMap::new(), locked_objects: Vec::new() }
    }

    /// Begins to have a stream's texture registered. One that is registered keeps
    /// its object, with the size brought up to date; one that replaces another
    /// has the other's entry removed.
    pub fn update_texture(&mut self, key: i64, shared_handle: usize, width: u32, height: u32) -> (r:
        UpdateStep)
        ensures
            final(self).locked_objects@ == old(self).locked_objects@,
            ({
                let before = old(self).entries@;
                if !before.contains_key(key) {
                    r == (UpdateStep::Register { unregister: None }) && final(self).entries@
                        == before
                } else if before[key].shared_handle == shared_handle {
                    r == UpdateStep::Registered && final(self).entries@ == before.insert(
                        key,
                        InteropEntry { width, height, ..before[key] },
                    )
                } else {
                    r == (UpdateStep::Register { unregister: Some(before[key].registered) })
                        && final(self).entries@ == before.remove(key)
                }
            }),
    {
        let found: Option<InteropEntry> = match self.entries.get(&key) {
            Some(entry) => Some(*entry),
            None => None,
        };
        match found {
            None => UpdateStep::Register { unregister: None },
            Some(entry) => {
                if entry.shared_handle == shared_handle {
                    self.entries.insert(
                        key,
                        InteropEntry {
                            gl_tex_id: entry.gl_tex_id,
                            registered: entry.registered,
                            shared_handle: entry.shared_handle,
                            width,
                            height,
                        },
                    );
                    UpdateStep::Registered
                } else {
                    self.entries.remove(&key);
                    UpdateStep::Register { unregister: Some(entry.registered) }
                }
            },
        }
    }

    /// Ends having a stream's texture registered, given the object that
    /// registering gave, zero where it failed, with the system's last error.
    pub fn texture_registered(
        &mut self,
        key: i64,
        shared_handle: usize,
        gl_tex_id: u32,
        width: u32,
        height: u32,
        registered: usize,
        last_error: &str,
    ) -> (r: Result<(), String>)
        ensures
            final(self).locked_objects@ == old(self).locked_objects@,
            match r {
                Ok(_) => registered != 0 && final(self).entries@ == old(self).entries@.insert(
                    key,
                    InteropEntry { gl_tex_id, registered, shared_handle, width, height },
                ),
                Err(s) => registered == 0 && final(self).entries@ == old(self).entries@ && s@
                    == "wglDXRegisterObjectNV FAILED key="@ + text::decimal_int(key as int)
                    + " gl_tex="@ + text::decimal(gl_tex_id as nat) + " ptr=0x"@
                    + text::hexadecimal(shared_handle as nat) + " GetLastError="@ + last_error@,
            },
    {
        if registered == 0 {
            let mut s = "wglDXRegisterObjectNV FAILED key=".to_owned();
            text::push_decimal_int(&mut s, key);
            s.push_str(" gl_tex=");
            text::push_decimal(&mut s, gl_tex_id as u64);
            s.push_str(" ptr=0x");
            text::push_hexadecimal(&mut s, shared_handle as u64);
            s.push_str(" GetLastError=");
            s.push_str(last_error);
            return Err(s);
        }
        self.entries.insert(
            key,
            InteropEntry { gl_tex_id, registered, shared_handle, width, height },
        );
        Ok(())
    }

    /// The OpenGL texture of a stream, with its size.
    pub fn get_gl_tex(&self, key: i64) -> (r: Option<(u32, u32, u32)>)
        ensures
            r == if self.entries@.contains_key(key) {
                let e = self.entries@[key];
                Some((e.gl_tex_id, e.width, e.height))
            } else {
                None
            },
    {
        match self.entries.get(&key) {
            Some(e) => Some((e.gl_tex_id, e.width, e.height)),
            None => None,
        }
    }

    /// The objects of all registered textures, in no particular order.
    fn registered_objects(&self) -> (r: Vec<usize>)
        ensures
            lists_objects(self.entries@, r@),
    {
        let mut r: Vec<usize> = Vec::new();
        let ghost m = self.entries@;
        let ghost mut seen: Seq<i64> = Seq::empty();
        for k in it: self.entries.keys()
            invariant
                m == self.entries@,
                it.seq().unref().to_set() == m.dom(),
                it.seq().no_duplicates(),
                seen =~= it.seq().unref().take(it.index() as int),
                it.index() == it.seq().len() ==> seen =~= it.seq().unref(),
                r@ =~= seen.map_values(|k: i64| m[k].registered),
            ensures
                seen.to_set() == m.dom(),
                seen.no_duplicates(),
                r@ =~= seen.map_values(|k: i64| m[k].registered),
        {
            proof {
                assert(it.seq().unref().to_set().contains(it.seq().unref()[it.index() as int]));
                assert(m.contains_key(*k));
            }
            if let Some(e) = self.entries.get(k) {
                r.push(e.registered);
            }
            proof {
                seen = seen.push(*k);
                assert(seen =~= it.seq().unref().take(it.index() + 1));
            }
        }
        proof {
            keys_list_objects(m, seen);
        }
        r
    }

    /// Locks the registered textures for OpenGL: whether there are any. Their
    /// objects, which are to be locked, are noted whatever locking them gives.
    pub fn lock_all(&mut self) -> (r: bool)
        ensures
            final(self).entries@ == old(self).entries@,
            r == (old(self).entries@.dom().len() > 0),
            !r ==> final(self).locked_objects@ == old(self).locked_objects@,
            r ==> lists_objects(old(self).entries@, final(self).locked_objects@),
    {
        if self.entries.is_empty() {
            return false;
        }
        self.locked_objects = self.registered_objects();
        true
    }

    /// Gives the locked textures back to Direct3D: the objects to unlock, none
    /// where nothing is locked.
    pub fn unlock_all(&mut self) -> (r: Vec<usize>)
        ensures
            r@ == old(self).locked_objects@,
            final(self).locked_objects@ == Seq::<usize>::empty(),
            final(self).entries@ == old(self).entries@,
    {
        let mut r: Vec<usize> = Vec::new();
        r.append(&mut self.locked_objects);
        assert(r@ =~= old(self).locked_objects@);
        r
    }

    /// Removes the textures of streams that ended: the objects to unregister, in
    /// the order of the keys.
    pub fn remove_keys(&mut self, keys: &Vec<i64>) -> (r: Vec<usize>)
        ensures
            final(self).entries@ == without_keys(old(self).entries@, keys@),
            r@ == removed_objects(old(self).entries@, keys@),
            final(self).locked_objects@ == old(self).locked_objects@,
    {
        let ghost before = self.entries@;
        let ghost locked = self.locked_objects@;
        let mut r: Vec<usize> = Vec::new();
        let mut i: usize = 0;
        while i < keys.len()
            invariant
                i <= keys@.len(),
                self.entries@ == without_keys(before, keys@.take(i as int)),
                r@ == removed_objects(before, keys@.take(i as int)),
                self.locked_objects@ == locked,
            decreases keys@.len() - i,
        {
            assert(keys@.take(i + 1).drop_last() =~= keys@.take(i as int));
            if let Some(entry) = self.entries.remove(&keys[i]) {
                r.push(entry.registered);
            }
            i += 1;
        }
        assert(keys@.take(i as int) =~= keys@);
        r
    }

    /// Removes every texture: the objects to unregister, in no particular order.
    pub fn clear(&mut self) -> (r: Vec<usize>)
        ensures
            final(self).entries@ == Map::<i64, InteropEntry>::empty(),
            final(self).locked_objects@ == old(self).locked_objects@,
            lists_objects(old(self).entries@, r@),
    {
        let r = self.registered_objects();
        self.entries.clear();
        r
    }
}

/// The once-only attempt to set up sharing.
#[derive(Debug, Clone, Copy, PartialEq, Eq, Structural)]
pub struct InteropInit {
    pub tried: bool,
}

impl InteropInit {
    /// Whether to set up sharing now: once, when there is something to draw with
    /// and the device is there. Until the device is there it is asked again.
    pub fn due(&mut self, has_gl: bool, device_ready: bool) -> (r: bool)
        ensures
            r == (!old(self).tried && has_gl && device_ready),
            final(self).tried == (old(self).tried || r),
    {
        if !self.tried && has_gl && device_ready {
            self.tried = true;
            true
        } else {
            false
        }
    }
}

/// A stream whose key was removed has no texture.
pub proof fn a_key_is_gone_once_removed(entries: Map<i64, InteropEntry>, keys: Seq<i64>, i: int)
    requires
        0 <= i < keys.len(),
    ensures
        !without_keys(entries, keys).contains_key(keys[i]),
    decreases keys.len(),
{
    if i < keys.len() - 1 {
        a_key_is_gone_once_removed(entries, keys.drop_last(), i);
    }
}

/// A stream whose key is not among those removed keeps its texture.
pub proof fn other_keys_stay(entries: Map<i64, InteropEntry>, keys: Seq<i64>, k: i64)
    requires
        !keys.contains(k),
    ensures
        without_keys(entries, keys).contains_key(k) == entries.contains_key(k),
        entries.contains_key(k) ==> without_keys(entries, keys)[k] == entries[k],
    decreases keys.len(),
{
    if keys.len() > 0 {
        assert(keys[keys.len() - 1] != k);
        assert forall|j: int| 0 <= j < keys.drop_last().len() implies keys.drop_last()[j] != k by {
            assert(keys[j] != k);
        }
        other_keys_stay(entries, keys.drop_last(), k);
    }
}

} // verus!
