//! The interpreter's raw interface: reference counts, type checks, constructors, accessors
//! and the pending-exception slot, on addresses.
//!
//! Nothing here knows of handles or ownership. A caller counts its references itself and
//! looks at the pending exception after an accessor has returned its sentinel.

use crate::double::{double_from_int, double_of_int, double_to_int, int_of_double};
use crate::python::{decrefed, increfed, ErrState, ExcType, Object, Python, Value, NULL};
use libc::c_long;
use vstd::prelude::*;

verus! {

/// What [`Python::long_as_long`] returns when it fails.
pub const LONG_SENTINEL: c_long = -1;

/// What [`Python::long_as_unsigned_long_long`] returns when it fails: all ones.
pub const UNSIGNED_SENTINEL: u64 = 0xffff_ffff_ffff_ffff;

/// What [`Python::float_as_double`] returns when it fails: the bits of `-1.0`.
pub const DOUBLE_SENTINEL: u64 = 0xbff0_0000_0000_0000;

/// The slot after an exception of type `ptype` was raised: no instance, no traceback.
pub open spec fn raised(ptype: ExcType) -> Option<ErrState> {
    Some(ErrState { ptype, pvalue: NULL, ptraceback: NULL })
}

/// The integer that an accessor for the range `lo ..= hi` reads from an object, or the
/// exception that it raises: `TypeError` for what is no `int`, `OverflowError` for an
/// `int` out of range.
pub open spec fn read_int(v: Value, lo: int, hi: int) -> Result<int, ExcType> {
    match v {
        Value::Long(n) => if lo <= n <= hi {
            Ok(n as int)
        } else {
            Err(ExcType::OverflowError)
        },
        _ => Err(ExcType::TypeError),
    }
}

/// The double that the float accessor reads from an object, by its bits, or the exception
/// that it raises. An `int` is converted to the nearest double.
pub open spec fn read_double(v: Value) -> Result<int, ExcType> {
    match v {
        Value::Float(bits) => Ok(bits as int),
        Value::Long(n) => Ok(double_of_int(n as int)),
        _ => Err(ExcType::TypeError),
    }
}

/// The `int` that an object is or converts to, or the exception that the conversion
/// raises. A `float` is cut down to an integer, towards zero.
pub open spec fn to_long(v: Value) -> Result<int, ExcType> {
    match v {
        Value::Long(n) => Ok(n as int),
        Value::Float(bits) => int_of_double(bits),
        _ => Err(ExcType::TypeError),
    }
}

/// Whether an object is an `int` that a native `long` holds.
pub open spec fn is_small_int(v: Value) -> bool {
    v matches Value::Long(n) && c_long::MIN <= n <= c_long::MAX
}

/// The addresses of the items of a `tuple`; none for any other object.
pub open spec fn tuple_items(v: Value) -> Seq<usize> {
    match v {
        Value::Tuple(items) => items@,
        _ => Seq::empty(),
    }
}

/// The keys of a `dict`, in the order of insertion; none for any other object.
pub open spec fn dict_keys(v: Value) -> Seq<Seq<char>> {
    match v {
        Value::Dict(entries) => Seq::new(entries@.len(), |i: int| entries@[i].0@),
        _ => Seq::empty(),
    }
}

/// The addresses of the values of a `dict`, in the order of its keys; none for any other
/// object.
pub open spec fn dict_values(v: Value) -> Seq<usize> {
    match v {
        Value::Dict(entries) => Seq::new(entries@.len(), |i: int| entries@[i].1),
        _ => Seq::empty(),
    }
}

/// The value under the first of `keys` that equals `key`, or [`NULL`] where none does.
pub open spec fn lookup(keys: Seq<Seq<char>>, values: Seq<usize>, key: Seq<char>) -> usize
    decreases keys.len(),
{
    if keys.len() == 0 || values.len() == 0 {
        NULL
    } else if keys.first() == key {
        values.first()
    } else {
        lookup(keys.drop_first(), values.drop_first(), key)
    }
}

/// The index of the first of `keys` that equals `key`; the number of keys where none
/// does.
pub open spec fn first_index(keys: Seq<Seq<char>>, key: Seq<char>) -> int
    decreases keys.len(),
{
    if keys.len() == 0 {
        0
    } else if keys.first() == key {
        0
    } else {
        1 + first_index(keys.drop_first(), key)
    }
}

/// The keys and values of a `dict` after `item` was put under `key`: the key keeps its
/// place if the `dict` had it, and comes last if not.
pub open spec fn put(keys: Seq<Seq<char>>, values: Seq<usize>, key: Seq<char>, item: usize) -> (
    Seq<Seq<char>>,
    Seq<usize>,
) {
    let j = first_index(keys, key);
    if j < keys.len() {
        (keys, values.update(j, item))
    } else {
        (keys.push(key), values.push(item))
    }
}

/// The first of `keys` that equals `key` is at the index `j` if `key` is there and at
/// no index before.
pub proof fn lemma_first_index(keys: Seq<Seq<char>>, key: Seq<char>, j: int)
    requires
        0 <= j < keys.len(),
        keys[j] == key,
        forall|l: int| 0 <= l < j ==> keys[l] != key,
    ensures
        first_index(keys, key) == j,
    decreases j,
{
    if j > 0 {
        assert forall|l: int| 0 <= l < j - 1 implies keys.drop_first()[l] != key by {
        }
        lemma_first_index(keys.drop_first(), key, j - 1);
    }
}

/// Where none of `keys` equals `key`, the index of the first is their number.
pub proof fn lemma_first_index_absent(keys: Seq<Seq<char>>, key: Seq<char>)
    requires
        !keys.contains(key),
    ensures
        first_index(keys, key) == keys.len(),
    decreases keys.len(),
{
    if keys.len() > 0 {
        assert forall|l: int| 0 <= l < keys.drop_first().len() implies keys.drop_first()[l]
            != key by {
        }
        lemma_first_index_absent(keys.drop_first(), key);
    }
}

impl Python {
    /// `Py_INCREF`: counts one more reference to the object at `ptr`.
    pub fn incref(&mut self, ptr: usize)
        requires
            old(self).can_incref(ptr),
        ensures
            final(self).heap() == increfed(old(self).heap(), ptr),
            final(self).pending() == old(self).pending(),
            final(self).owns_lock() == old(self).owns_lock(),
    {
        let n: usize = self.objects[ptr - 1].refcnt;
        self.objects[ptr - 1].refcnt = n + 1;
    }

    /// `Py_DECREF`: counts one reference less to the object at `ptr`. At zero the object
    /// is dead.
    pub fn decref(&mut self, ptr: usize)
        requires
            old(self).live(ptr),
        ensures
            final(self).heap() == decrefed(old(self).heap(), ptr),
            final(self).pending() == old(self).pending(),
            final(self).owns_lock() == old(self).owns_lock(),
    {
        let n: usize = self.objects[ptr - 1].refcnt;
        self.objects[ptr - 1].refcnt = n - 1;
    }

    /// `PyLong_Check`: whether the object at `ptr` is an `int`.
    pub fn long_check(&self, ptr: usize) -> (b: bool)
        requires
            self.live(ptr),
        ensures
            b == (self.object(ptr).value is Long),
    {
        match &self.objects[ptr - 1].value {
            Value::Long(_) => true,
            _ => false,
        }
    }

    /// `PyInt_Check`: whether the object at `ptr` is an `int` that a native `long` holds.
    pub fn int_check(&self, ptr: usize) -> (b: bool)
        requires
            self.live(ptr),
        ensures
            b == is_small_int(self.object(ptr).value),
    {
        match &self.objects[ptr - 1].value {
            Value::Long(n) => *n >= c_long::MIN as i128 && *n <= c_long::MAX as i128,
            _ => false,
        }
    }

    /// `PyInt_FromLong`: a new `int` with the value `val`, with one reference.
    pub fn int_from_long(&mut self, val: c_long) -> (ptr: usize)
        ensures
            ptr == old(self).heap().len() + 1,
            final(self).heap() == old(self).heap().push(
                Object { refcnt: 1, value: Value::Long(val as i128) },
            ),
            final(self).pending() == old(self).pending(),
            final(self).owns_lock() == old(self).owns_lock(),
    {
        self.new_object(Value::Long(val as i128))
    }

    /// `PyInt_AS_LONG`: the value of the `int` at `ptr`, which a native `long` holds.
    /// Nothing is checked and nothing raised.
    pub fn int_as_long(&self, ptr: usize) -> (val: c_long)
        requires
            self.live(ptr),
            is_small_int(self.object(ptr).value),
        ensures
            self.object(ptr).value == Value::Long(val as i128),
    {
        match &self.objects[ptr - 1].value {
            Value::Long(n) => *n as c_long,
            _ => LONG_SENTINEL,
        }
    }

    /// `PyLong_FromNativeBytes` for the sixteen bytes of `val`: a new `int` with the
    /// value `val`, with one reference.
    pub fn long_from_native_bytes(&mut self, val: i128) -> (ptr: usize)
        ensures
            ptr == old(self).heap().len() + 1,
            final(self).heap() == old(self).heap().push(
                Object { refcnt: 1, value: Value::Long(val) },
            ),
            final(self).pending() == old(self).pending(),
            final(self).owns_lock() == old(self).owns_lock(),
    {
        self.new_object(Value::Long(val))
    }

    /// `PyBaseObject_Type` called with no arguments: a new object that is no number and
    /// no container, with one reference.
    pub fn object_new(&mut self) -> (ptr: usize)
        ensures
            ptr == old(self).heap().len() + 1,
            final(self).heap() == old(self).heap().push(
                Object { refcnt: 1, value: Value::Opaque },
            ),
            final(self).pending() == old(self).pending(),
            final(self).owns_lock() == old(self).owns_lock(),
    {
        self.new_object(Value::Opaque)
    }

    /// `PyFloat_Check`: whether the object at `ptr` is a `float`.
    pub fn float_check(&self, ptr: usize) -> (b: bool)
        requires
            self.live(ptr),
        ensures
            b == (self.object(ptr).value is Float),
    {
        match &self.objects[ptr - 1].value {
            Value::Float(_) => true,
            _ => false,
        }
    }

    /// `PyLong_FromLong`: a new `int` with the value `val`, with one reference.
    pub fn long_from_long(&mut self, val: c_long) -> (ptr: usize)
        ensures
            ptr == old(self).heap().len() + 1,
            final(self).heap() == old(self).heap().push(
                Object { refcnt: 1, value: Value::Long(val as i128) },
            ),
            final(self).pending() == old(self).pending(),
            final(self).owns_lock() == old(self).owns_lock(),
    {
        self.new_object(Value::Long(val as i128))
    }

    /// `PyLong_FromUnsignedLongLong`: a new `int` with the value `val`, with one
    /// reference.
    pub fn long_from_unsigned_long_long(&mut self, val: u64) -> (ptr: usize)
        ensures
            ptr == old(self).heap().len() + 1,
            final(self).heap() == old(self).heap().push(
                Object { refcnt: 1, value: Value::Long(val as i128) },
            ),
            final(self).pending() == old(self).pending(),
            final(self).owns_lock() == old(self).owns_lock(),
    {
        self.new_object(Value::Long(val as i128))
    }

    /// `PyFloat_FromDouble`: a new `float` with the bits `bits`, with one reference.
    pub fn float_from_double(&mut self, bits: u64) -> (ptr: usize)
        ensures
            ptr == old(self).heap().len() + 1,
            final(self).heap() == old(self).heap().push(
                Object { refcnt: 1, value: Value::Float(bits) },
            ),
            final(self).pending() == old(self).pending(),
            final(self).owns_lock() == old(self).owns_lock(),
    {
        self.new_object(Value::Float(bits))
    }

    /// `PyLong_AsLong`: the value of the `int` at `ptr`. Where the object is no `int` or
    /// its value does not fit, raises and returns [`LONG_SENTINEL`], which is also the
    /// value of the `int` -1.
    pub fn long_as_long(&mut self, ptr: usize) -> (val: c_long)
        requires
            old(self).live(ptr),
        ensures
            final(self).heap() == old(self).heap(),
            final(self).owns_lock() == old(self).owns_lock(),
            match read_int(old(self).object(ptr).value, c_long::MIN as int, c_long::MAX as int) {
                Ok(n) => val == n && final(self).pending() == old(self).pending(),
                Err(t) => val == LONG_SENTINEL && final(self).pending() == raised(t),
            },
    {
        match &self.objects[ptr - 1].value {
            Value::Long(n) => {
                let n: i128 = *n;
                if n >= c_long::MIN as i128 && n <= c_long::MAX as i128 {
                    n as c_long
                } else {
                    self.raise(ExcType::OverflowError);
                    LONG_SENTINEL
                }
            },
            _ => {
                self.raise(ExcType::TypeError);
                LONG_SENTINEL
            },
        }
    }

    /// `PyLong_AsUnsignedLongLong`: the value of the `int` at `ptr`. Where the object is
    /// no `int` or its value does not fit, raises and returns [`UNSIGNED_SENTINEL`], which
    /// is also the value of the largest `int` that fits.
    pub fn long_as_unsigned_long_long(&mut self, ptr: usize) -> (val: u64)
        requires
            old(self).live(ptr),
        ensures
            final(self).heap() == old(self).heap(),
            final(self).owns_lock() == old(self).owns_lock(),
            match read_int(old(self).object(ptr).value, 0, u64::MAX as int) {
                Ok(n) => val == n && final(self).pending() == old(self).pending(),
                Err(t) => val == UNSIGNED_SENTINEL && final(self).pending() == raised(t),
            },
    {
        match &self.objects[ptr - 1].value {
            Value::Long(n) => {
                let n: i128 = *n;
                if n >= 0 && n <= u64::MAX as i128 {
                    n as u64
                } else {
                    self.raise(ExcType::OverflowError);
                    UNSIGNED_SENTINEL
                }
            },
            _ => {
                self.raise(ExcType::TypeError);
                UNSIGNED_SENTINEL
            },
        }
    }

    /// `PyFloat_AsDouble`: the bits of the `float` that the object at `ptr` is or converts
    /// to. Where the object is no number, raises and returns [`DOUBLE_SENTINEL`], which is
    /// also the value of the `float` -1.0.
    pub fn float_as_double(&mut self, ptr: usize) -> (bits: u64)
        requires
            old(self).live(ptr),
        ensures
            final(self).heap() == old(self).heap(),
            final(self).owns_lock() == old(self).owns_lock(),
            match read_double(old(self).object(ptr).value) {
                Ok(b) => bits == b && final(self).pending() == old(self).pending(),
                Err(t) => bits == DOUBLE_SENTINEL && final(self).pending() == raised(t),
            },
    {
        match &self.objects[ptr - 1].value {
            Value::Float(bits) => *bits,
            Value::Long(n) => double_from_int(*n),
            _ => {
                self.raise(ExcType::TypeError);
                DOUBLE_SENTINEL
            },
        }
    }

    /// `PyNumber_Long`: the `int` that the object at `ptr` is or converts to, with one
    /// reference for the caller. For an `int` that is the object itself; for a `float`
    /// it is a new object. Where the object converts to none, raises and returns
    /// [`NULL`].
    pub fn number_long(&mut self, ptr: usize) -> (num: usize)
        requires
            old(self).live(ptr),
            old(self).object(ptr).value is Long ==> old(self).can_incref(ptr),
        ensures
            final(self).owns_lock() == old(self).owns_lock(),
            match old(self).object(ptr).value {
                Value::Long(_) => {
                    &&& num == ptr
                    &&& final(self).heap() == increfed(old(self).heap(), ptr)
                    &&& final(self).pending() == old(self).pending()
                },
                v => match to_long(v) {
                    Ok(n) => {
                        &&& num == old(self).heap().len() + 1
                        &&& final(self).heap() == old(self).heap().push(
                            Object { refcnt: 1, value: Value::Long(n as i128) },
                        )
                        &&& final(self).pending() == old(self).pending()
                    },
                    Err(t) => {
                        &&& num == NULL
                        &&& final(self).heap() == old(self).heap()
                        &&& final(self).pending() == raised(t)
                    },
                },
            },
    {
        let converted = match &self.objects[ptr - 1].value {
            Value::Long(_) => {
                self.incref(ptr);
                return ptr;
            },
            Value::Float(bits) => double_to_int(*bits),
            _ => Err(ExcType::TypeError),
        };
        match converted {
            Ok(n) => self.new_object(Value::Long(n)),
            Err(t) => {
                self.raise(t);
                NULL
            },
        }
    }

    /// `PyErr_Occurred`: whether an exception is pending.
    pub fn err_occurred(&self) -> (b: bool)
        ensures
            b == (self.pending() is Some),
    {
        self.pending.is_some()
    }

    /// `PyErr_Fetch`: takes the pending exception out of its slot, which is empty after
    /// that.
    pub fn err_fetch(&mut self) -> (st: Option<ErrState>)
        ensures
            st == old(self).pending(),
            final(self).pending() is None,
            final(self).heap() == old(self).heap(),
            final(self).owns_lock() == old(self).owns_lock(),
    {
        let st = self.pending;
        self.pending = None;
        st
    }

    /// `PyErr_Restore`: puts `st` into the slot, in place of what was there.
    pub fn err_restore(&mut self, st: Option<ErrState>)
        ensures
            final(self).pending() == st,
            final(self).heap() == old(self).heap(),
            final(self).owns_lock() == old(self).owns_lock(),
    {
        self.pending = st;
    }

    /// `PyTuple_Check`: whether the object at `ptr` is a `tuple`.
    pub fn tuple_check(&self, ptr: usize) -> (b: bool)
        requires
            self.live(ptr),
        ensures
            b == (self.object(ptr).value is Tuple),
    {
        match &self.objects[ptr - 1].value {
            Value::Tuple(_) => true,
            _ => false,
        }
    }

    /// `PyTuple_Pack`: a new `tuple` of the objects at `items`, with one reference.
    pub fn tuple_pack(&mut self, items: Vec<usize>) -> (ptr: usize)
        ensures
            ptr == old(self).heap().len() + 1,
            final(self).heap() == old(self).heap().push(
                Object { refcnt: 1, value: Value::Tuple(items) },
            ),
            final(self).pending() == old(self).pending(),
            final(self).owns_lock() == old(self).owns_lock(),
    {
        self.new_object(Value::Tuple(items))
    }

    /// `PyTuple_GET_SIZE`: the number of items of the `tuple` at `ptr`.
    pub fn tuple_size(&self, ptr: usize) -> (n: usize)
        requires
            self.live(ptr),
            self.object(ptr).value is Tuple,
        ensures
            n == tuple_items(self.object(ptr).value).len(),
    {
        match &self.objects[ptr - 1].value {
            Value::Tuple(items) => items.len(),
            _ => 0,
        }
    }

    /// `PyTuple_GET_ITEM`: the address of the item `index` of the `tuple` at `ptr`. No
    /// reference is counted for the caller.
    pub fn tuple_get_item(&self, ptr: usize, index: usize) -> (item: usize)
        requires
            self.live(ptr),
            self.object(ptr).value is Tuple,
            index < tuple_items(self.object(ptr).value).len(),
        ensures
            item == tuple_items(self.object(ptr).value)[index as int],
    {
        match &self.objects[ptr - 1].value {
            Value::Tuple(items) => items[index],
            _ => NULL,
        }
    }

    /// `PyDict_Check`: whether the object at `ptr` is a `dict`.
    pub fn dict_check(&self, ptr: usize) -> (b: bool)
        requires
            self.live(ptr),
        ensures
            b == (self.object(ptr).value is Dict),
    {
        match &self.objects[ptr - 1].value {
            Value::Dict(_) => true,
            _ => false,
        }
    }

    /// `PyDict_New`: a new, empty `dict`, with one reference.
    pub fn dict_new(&mut self) -> (ptr: usize)
        ensures
            ptr == old(self).heap().len() + 1,
            final(self).heap().len() == old(self).heap().len() + 1,
            final(self).heap().drop_last() == old(self).heap(),
            final(self).heap().last().refcnt == 1,
            final(self).heap().last().value is Dict,
            dict_keys(final(self).heap().last().value) == Seq::<Seq<char>>::empty(),
            dict_values(final(self).heap().last().value) == Seq::<usize>::empty(),
            final(self).pending() == old(self).pending(),
            final(self).owns_lock() == old(self).owns_lock(),
    {
        let ptr = self.new_object(Value::Dict(Vec::new()));
        ptr
    }

    /// `PyDict_Size`: the number of entries of the `dict` at `ptr`.
    pub fn dict_size(&self, ptr: usize) -> (n: usize)
        requires
            self.live(ptr),
            self.object(ptr).value is Dict,
        ensures
            n == dict_keys(self.object(ptr).value).len(),
    {
        match &self.objects[ptr - 1].value {
            Value::Dict(entries) => entries.len(),
            _ => 0,
        }
    }

    /// `PyDict_GetItemString`: the address of the value under `key` in the `dict` at
    /// `ptr`, or [`NULL`] where the `dict` has no such key. Nothing is raised, and no
    /// reference is counted for the caller.
    pub fn dict_get_item_string(&self, ptr: usize, key: &String) -> (item: usize)
        requires
            self.live(ptr),
            self.object(ptr).value is Dict,
        ensures
            item == lookup(
                dict_keys(self.object(ptr).value),
                dict_values(self.object(ptr).value),
                key@,
            ),
    {
        match &self.objects[ptr - 1].value {
            Value::Dict(entries) => {
                let ghost keys = dict_keys(self.object(ptr).value);
                let ghost values = dict_values(self.object(ptr).value);
                let mut i: usize = 0;
                proof {
                    assert(keys.skip(0) =~= keys);
                    assert(values.skip(0) =~= values);
                }
                while i < entries.len()
                    invariant
                        i <= entries.len(),
                        keys == dict_keys(self.object(ptr).value),
                        values == dict_values(self.object(ptr).value),
                        keys.len() == entries.len(),
                        values.len() == entries.len(),
                        forall|k: int| 0 <= k < entries.len() ==> keys[k] == entries[k].0@,
                        forall|k: int| 0 <= k < entries.len() ==> values[k] == entries[k].1,
                        lookup(keys, values, key@) == lookup(
                            keys.skip(i as int),
                            values.skip(i as int),
                            key@,
                        ),
                    decreases entries.len() - i,
                {
                    assert(keys.skip(i as int).drop_first() =~= keys.skip(i + 1));
                    assert(values.skip(i as int).drop_first() =~= values.skip(i + 1));
                    if entries[i].0 == *key {
                        return entries[i].1;
                    }
                    i = i + 1;
                }
                NULL
            },
            _ => NULL,
        }
    }

    /// `PyDict_SetItemString`: puts the object at `item` under `key` into the `dict` at
    /// `ptr`: in place of the value that the key had, or after the entries that the
    /// `dict` has where the key is new.
    pub fn dict_set_item_string(&mut self, ptr: usize, key: String, item: usize)
        requires
            old(self).live(ptr),
            old(self).object(ptr).value is Dict,
        ensures
            final(self).heap().len() == old(self).heap().len(),
            forall|q: int|
                0 <= q < old(self).heap().len() && q != ptr - 1 ==> final(self).heap()[q] == old(
                    self,
                ).heap()[q],
            final(self).object(ptr).refcnt == old(self).object(ptr).refcnt,
            final(self).object(ptr).value is Dict,
            (dict_keys(final(self).object(ptr).value), dict_values(final(self).object(ptr).value))
                == put(
                dict_keys(old(self).object(ptr).value),
                dict_values(old(self).object(ptr).value),
                key@,
                item,
            ),
            final(self).pending() == old(self).pending(),
            final(self).owns_lock() == old(self).owns_lock(),
    {
        let ghost keys = dict_keys(old(self).object(ptr).value);
        let ghost values = dict_values(old(self).object(ptr).value);
        match &mut self.objects[ptr - 1].value {
            Value::Dict(entries) => {
                let mut i: usize = 0;
                let mut found = false;
                while !found && i < entries.len()
                    invariant
                        i <= entries.len(),
                        keys.len() == entries.len(),
                        values.len() == entries.len(),
                        forall|k: int| 0 <= k < entries.len() ==> keys[k] == entries[k].0@,
                        forall|k: int| 0 <= k < entries.len() ==> values[k] == entries[k].1,
                        forall|k: int| 0 <= k < i ==> keys[k] != key@,
                        found ==> i < entries.len() && keys[i as int] == key@,
                    decreases entries.len() - i + (if found { 0int } else { 1int }),
                {
                    if entries[i].0 == key {
                        found = true;
                    } else {
                        i = i + 1;
                    }
                }
                if found {
                    proof {
                        assert(first_index(keys, key@) == i) by {
                            lemma_first_index(keys, key@, i as int);
                        }
                    }
                    entries[i].1 = item;
                } else {
                    proof {
                        lemma_first_index_absent(keys, key@);
                    }
                    entries.push((key, item));
                }
            },
            _ => {},
        }
    }

    /// The keys of the `dict` at `ptr`, in the order of insertion.
    pub fn dict_key_list(&self, ptr: usize) -> (keys: Vec<String>)
        requires
            self.live(ptr),
            self.object(ptr).value is Dict,
        ensures
            keys.len() == dict_keys(self.object(ptr).value).len(),
            forall|k: int| 0 <= k < keys.len() ==> keys[k]@ == dict_keys(self.object(ptr).value)[k],
    {
        let mut keys: Vec<String> = Vec::new();
        match &self.objects[ptr - 1].value {
            Value::Dict(entries) => {
                let mut i: usize = 0;
                while i < entries.len()
                    invariant
                        i <= entries.len(),
                        keys.len() == i,
                        forall|k: int| 0 <= k < i ==> keys[k]@ == entries[k].0@,
                    decreases entries.len() - i,
                {
                    keys.push(entries[i].0.clone());
                    i = i + 1;
                }
            },
            _ => {},
        }
        keys
    }

    /// `PyCFunction_New`: a new callable for the function called `name`, which takes
    /// keyword arguments if `keywords` says so, with one reference.
    pub fn cfunction_new(&mut self, name: String, keywords: bool) -> (ptr: usize)
        ensures
            ptr == old(self).heap().len() + 1,
            final(self).heap() == old(self).heap().push(
                Object { refcnt: 1, value: Value::Function(name, keywords) },
            ),
            final(self).pending() == old(self).pending(),
            final(self).owns_lock() == old(self).owns_lock(),
    {
        self.new_object(Value::Function(name, keywords))
    }
}

} // verus!
