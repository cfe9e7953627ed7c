//! The device attribute interface, and an in-memory device.
//!
//! LED hardware is driven through named attributes of a device directory.
//! The [`DeviceIo`] trait is the library's contract for that collaborator:
//! a device has a path, exposes a set of named attributes, and lets each
//! be checked for presence, read whole, and overwritten whole. Any read
//! or write may fail with an I/O error; a failed write leaves the
//! attributes as they were.
//!
//! [`MemDevice`] implements the contract in memory. It serves as a
//! simulated device: attributes are created and torn down directly, and an
//! attribute can be locked so that writes to it fail, the way a read-only
//! or vanished attribute file would.

use vstd::prelude::*;

verus! {

use crate::errors::Error;

/// A device exposing named attributes, each a text value.
pub trait DeviceIo: Sized {
    /// The attributes the device currently exposes: attribute name to
    /// content.
    spec fn attrs(&self) -> Map<Seq<char>, Seq<char>>;

    /// The device's path, named in construction-time errors.
    spec fn id(&self) -> Seq<char>;

    /// The device path as text.
    fn id_string(&self) -> (r: String)
        ensures
            r@ == self.id(),
    ;

    /// Whether the device exposes an attribute with this name. Used only
    /// at construction time.
    fn has_attribute(&self, name: &str) -> (r: bool)
        ensures
            r == self.attrs().contains_key(name@),
    ;

    /// Read an attribute's content. A read may fail with an I/O error; one
    /// that succeeds returns exactly the attribute's content.
    fn read_attribute(&self, name: &str) -> (r: Result<String, Error>)
        ensures
            r matches Ok(v) ==> self.attrs().contains_key(name@) && v@ == self.attrs()[name@],
            r matches Err(e) ==> e is Io,
    ;

    /// Overwrite an attribute's content whole. A write never creates a
    /// missing attribute: it may fail with an I/O error, leaving the
    /// attributes unchanged, and one that succeeds stores exactly the
    /// given value in an attribute the device already exposed.
    fn write_attribute(&mut self, name: &str, value: &str) -> (r: Result<(), Error>)
        ensures
            final(self).id() == old(self).id(),
            r is Ok ==> old(self).attrs().contains_key(name@) && final(self).attrs() == old(
                self,
            ).attrs().insert(name@, value@),
            r matches Err(e) ==> e is Io && final(self).attrs() == old(self).attrs(),
    ;
}

/// The attribute map that a journal of writes builds up: a later entry for
/// a name overrides an earlier one.
pub open spec fn map_of(entries: Seq<(String, String)>) -> Map<Seq<char>, Seq<char>>
    decreases entries.len(),
{
    if entries.len() == 0 {
        Map::empty()
    } else {
        map_of(entries.drop_last()).insert(entries.last().0@, entries.last().1@)
    }
}

/// The content the journal holds for a name: that of the last entry with
/// the name, if any.
pub open spec fn lookup(entries: Seq<(String, String)>, name: Seq<char>) -> Option<Seq<char>>
    decreases entries.len(),
{
    if entries.len() == 0 {
        None
    } else if entries.last().0@ == name {
        Some(entries.last().1@)
    } else {
        lookup(entries.drop_last(), name)
    }
}

/// The journal's map holds a name exactly when a lookup finds it, and then
/// holds the content the lookup returns.
proof fn lemma_map_of_lookup(entries: Seq<(String, String)>, name: Seq<char>)
    ensures
        map_of(entries).contains_key(name) <==> lookup(entries, name) is Some,
        lookup(entries, name) matches Some(v) ==> map_of(entries)[name] == v,
    decreases entries.len(),
{
    if entries.len() > 0 {
        lemma_map_of_lookup(entries.drop_last(), name);
    }
}

/// A name is in the journal's map exactly when some entry carries it.
proof fn lemma_map_of_contains(entries: Seq<(String, String)>, name: Seq<char>)
    ensures
        map_of(entries).contains_key(name) <==> exists|t: int|
            0 <= t < entries.len() && #[trigger] entries[t].0@ == name,
    decreases entries.len(),
{
    if entries.len() > 0 {
        lemma_map_of_contains(entries.drop_last(), name);
        if entries.last().0@ == name {
            assert(entries[entries.len() - 1].0@ == name);
        } else if map_of(entries).contains_key(name) {
            let t = choose|t: int|
                0 <= t < entries.drop_last().len() && #[trigger] entries.drop_last()[t].0@ == name;
            assert(entries[t].0@ == name);
        } else {
            assert(forall|t: int|
                0 <= t < entries.len() - 1 ==> #[trigger] entries[t].0@ == entries.drop_last()[t].0@);
        }
    }
}

/// An in-memory device: a simulated set of attributes held as a journal of
/// writes, with a lock set standing in for attributes whose writes fail.
pub struct MemDevice {
    /// The device's path.
    pub name: String,
    /// The journal of attribute writes, oldest first.
    pub entries: Vec<(String, String)>,
    /// Names of attributes whose writes are made to fail.
    pub locked: Vec<String>,
}

impl MemDevice {
    /// Whether writes to the named attribute are made to fail.
    pub open spec fn is_locked(&self, name: Seq<char>) -> bool {
        exists|t: int| 0 <= t < self.locked@.len() && #[trigger] self.locked@[t]@ == name
    }

    /// A fresh device with the given path and no attributes.
    pub fn new(name: &str) -> (d: MemDevice)
        ensures
            d.attrs() == Map::<Seq<char>, Seq<char>>::empty(),
            d.id() == name@,
            forall|k: Seq<char>| !d.is_locked(k),
    {
        MemDevice { name: String::from_str(name), entries: Vec::new(), locked: Vec::new() }
    }

    /// Create or overwrite an attribute directly, as the hardware would
    /// expose it; not a write through the device interface, so it neither
    /// requires the attribute to exist nor respects a lock.
    pub fn set_attribute(&mut self, name: &str, value: &str)
        ensures
            final(self).attrs() == old(self).attrs().insert(name@, value@),
            final(self).id() == old(self).id(),
            forall|k: Seq<char>| final(self).is_locked(k) <==> old(self).is_locked(k),
    {
        self.entries.push((String::from_str(name), String::from_str(value)));
        proof {
            assert(self.entries@.drop_last() =~= old(self).entries@);
            assert forall|k: Seq<char>| self.is_locked(k) <==> old(self).is_locked(k) by {
                if self.is_locked(k) {
                    let t = choose|t: int|
                        0 <= t < self.locked@.len() && #[trigger] self.locked@[t]@ == k;
                    assert(old(self).locked@[t]@ == k);
                }
                if old(self).is_locked(k) {
                    let t = choose|t: int|
                        0 <= t < old(self).locked@.len() && #[trigger] old(self).locked@[t]@ == k;
                    assert(self.locked@[t]@ == k);
                }
            }
        }
    }

    /// Make writes to the named attribute fail from now on, the way a
    /// read-only or vanished attribute file would.
    pub fn lock_attribute(&mut self, name: &str)
        ensures
            final(self).attrs() == old(self).attrs(),
            final(self).id() == old(self).id(),
            final(self).is_locked(name@),
            forall|k: Seq<char>| k != name@ ==> (final(self).is_locked(k) <==> old(
                self,
            ).is_locked(k)),
    {
        self.locked.push(String::from_str(name));
        proof {
            let n = self.locked@.len() - 1;
            assert(self.locked@[n]@ == name@);
            assert forall|k: Seq<char>| k != name@ implies (self.is_locked(k) <==> old(
                self,
            ).is_locked(k)) by {
                if self.is_locked(k) {
                    let t = choose|t: int|
                        0 <= t < self.locked@.len() && #[trigger] self.locked@[t]@ == k;
                    assert(t < n ==> old(self).locked@[t]@ == k);
                }
                if old(self).is_locked(k) {
                    let t = choose|t: int|
                        0 <= t < old(self).locked@.len() && #[trigger] old(self).locked@[t]@ == k;
                    assert(self.locked@[t]@ == k);
                }
            }
        }
    }

    /// Whether the named attribute is locked.
    fn locked_contains(&self, key: &String) -> (r: bool)
        ensures
            r == self.is_locked(key@),
    {
        let n: usize = self.locked.len();
        let mut j: usize = 0;
        while j < n
            invariant
                j <= n,
                n == self.locked@.len(),
                forall|t: int| 0 <= t < j ==> #[trigger] self.locked@[t]@ != key@,
            decreases n - j,
        {
            if self.locked[j] == *key {
                return true;
            }
            j = j + 1;
        }
        false
    }
}

impl DeviceIo for MemDevice {
    open spec fn attrs(&self) -> Map<Seq<char>, Seq<char>> {
        map_of(self.entries@)
    }

    open spec fn id(&self) -> Seq<char> {
        self.name@
    }

    fn id_string(&self) -> (r: String) {
        self.name.clone()
    }

    fn has_attribute(&self, name: &str) -> (r: bool) {
        let key: String = String::from_str(name);
        let n: usize = self.entries.len();
        let mut j: usize = 0;
        proof {
            lemma_map_of_contains(self.entries@, name@);
        }
        while j < n
            invariant
                j <= n,
                n == self.entries@.len(),
                key@ == name@,
                map_of(self.entries@).contains_key(name@) <==> exists|t: int|
                    0 <= t < self.entries@.len() && #[trigger] self.entries@[t].0@ == name@,
                forall|t: int| 0 <= t < j ==> #[trigger] self.entries@[t].0@ != name@,
            decreases n - j,
        {
            if self.entries[j].0 == key {
                return true;
            }
            j = j + 1;
        }
        false
    }

    fn read_attribute(&self, name: &str) -> (r: Result<String, Error>) {
        let key: String = String::from_str(name);
        let mut j: usize = self.entries.len();
        proof {
            lemma_map_of_lookup(self.entries@, name@);
            assert(self.entries@.subrange(0, j as int) =~= self.entries@);
        }
        while j > 0
            invariant
                j <= self.entries@.len(),
                key@ == name@,
                lookup(self.entries@, name@) == lookup(
                    self.entries@.subrange(0, j as int),
                    name@,
                ),
                map_of(self.entries@).contains_key(name@) <==> lookup(self.entries@, name@)
                    is Some,
                lookup(self.entries@, name@) matches Some(v) ==> map_of(self.entries@)[name@]
                    == v,
            decreases j,
        {
            let ghost prefix = self.entries@.subrange(0, j as int);
            proof {
                assert(prefix.drop_last() =~= self.entries@.subrange(0, j - 1));
                assert(prefix.last() == self.entries@[j - 1]);
            }
            if self.entries[j - 1].0 == key {
                return Ok(self.entries[j - 1].1.clone());
            }
            j = j - 1;
        }
        Err(Error::Io(String::from_str("no such attribute: ").concat(name)))
    }

    fn write_attribute(&mut self, name: &str, value: &str) -> (r: Result<(), Error>) {
        if !self.has_attribute(name) {
            return Err(Error::Io(String::from_str("no such attribute: ").concat(name)));
        }
        let key: String = String::from_str(name);
        if self.locked_contains(&key) {
            return Err(Error::Io(String::from_str("attribute not writable: ").concat(name)));
        }
        self.entries.push((key, String::from_str(value)));
        proof {
            assert(self.entries@.drop_last() =~= old(self).entries@);
        }
        Ok(())
    }
}

} // verus!
