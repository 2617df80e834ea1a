//! User properties attached to comments: a map from property names to
//! string or numeric values, together with the wire naming scheme the
//! service uses (`string:<name>` and `number:<name>` key prefixes).

use vstd::prelude::*;
use vstd::string::StrSliceExecFns;
use vstd::string::StringExecFns;

verus! {

/// A finite 64-bit IEEE-754 value, stored as its raw bit pattern so the
/// client never computes with it. The invariant rules out the NaN
/// patterns: an exponent of all ones together with a non-zero mantissa.
#[derive(Clone, Copy, PartialEq, Eq, Structural)]
pub struct NotNan(pub u64);

impl NotNan {
    /// The bit patterns that do not encode a NaN.
    pub open spec fn wf(&self) -> bool {
        !((self.0 >> 52) & 0x7ff == 0x7ff && self.0 & 0x000f_ffff_ffff_ffff != 0)
    }

    /// Run-time check for [`NotNan::wf`].
    pub fn is_wf(&self) -> (r: bool)
        ensures
            r == self.wf(),
    {
        !((self.0 >> 52) & 0x7ff == 0x7ff && self.0 & 0x000f_ffff_ffff_ffff != 0)
    }
}

/// The value of one user property.
pub enum PropertyValue {
    Text(String),
    Number(NotNan),
}

/// Which of the two wire key prefixes a full property name carries.
#[derive(Clone, Copy, PartialEq, Eq, Structural)]
pub enum PropertyKind {
    Text,
    Number,
}

/// A Unicode white-space character (the `White_Space` code points).
pub open spec fn spec_is_whitespace(c: char) -> bool {
    let u = c as int;
    ||| (9 <= u && u <= 13)
    ||| u == 32
    ||| u == 0x85
    ||| u == 0xa0
    ||| u == 0x1680
    ||| (0x2000 <= u && u <= 0x200a)
    ||| u == 0x2028
    ||| u == 0x2029
    ||| u == 0x202f
    ||| u == 0x205f
    ||| u == 0x3000
}

/// A string that is empty or made of white space only. The wire format
/// drops string properties whose value is blank.
pub open spec fn spec_is_blank(s: Seq<char>) -> bool {
    forall|i: int| 0 <= i < s.len() ==> spec_is_whitespace(#[trigger] s[i])
}

fn is_whitespace_char(c: char) -> (r: bool)
    ensures
        r == spec_is_whitespace(c),
{
    let u = c as u32;
    (9 <= u && u <= 13) || u == 32 || u == 0x85 || u == 0xa0 || u == 0x1680 || (0x2000 <= u && u
        <= 0x200a) || u == 0x2028 || u == 0x2029 || u == 0x202f || u == 0x205f || u == 0x3000
}

/// Run-time check for [`spec_is_blank`].
pub fn is_blank(s: &str) -> (r: bool)
    ensures
        r == spec_is_blank(s@),
{
    let len = s.unicode_len();
    let mut i: usize = 0;
    while i < len
        invariant
            0 <= i <= len,
            len == s@.len(),
            forall|j: int| 0 <= j < i ==> spec_is_whitespace(#[trigger] s@[j]),
        decreases len - i,
    {
        if !is_whitespace_char(s.get_char(i)) {
            return false;
        }
        i = i + 1;
    }
    true
}

/// Whether `p` is a prefix of `s`.
pub open spec fn spec_has_prefix(s: Seq<char>, p: Seq<char>) -> bool {
    s.len() >= p.len() && s.subrange(0, p.len() as int) =~= p
}

/// Run-time prefix test.
pub fn has_prefix(s: &str, p: &str) -> (r: bool)
    ensures
        r == spec_has_prefix(s@, p@),
{
    let slen = s.unicode_len();
    let plen = p.unicode_len();
    if slen < plen {
        return false;
    }
    let mut i: usize = 0;
    while i < plen
        invariant
            0 <= i <= plen,
            plen <= slen,
            slen == s@.len(),
            plen == p@.len(),
            forall|j: int| 0 <= j < i ==> s@[j] == p@[j],
        decreases plen - i,
    {
        if s.get_char(i) != p.get_char(i) {
            assert(!spec_has_prefix(s@, p@)) by {
                assert(s@.subrange(0, p@.len() as int)[i as int] == s@[i as int]);
            }
            return false;
        }
        i = i + 1;
    }
    assert(s@.subrange(0, p@.len() as int) =~= p@);
    true
}

/// The wire form of a property name: the bare name behind a prefix that
/// states the value's type.
pub open spec fn spec_wire_name(kind: PropertyKind, key: Seq<char>) -> Seq<char> {
    match kind {
        PropertyKind::Text => "string:"@ + key,
        PropertyKind::Number => "number:"@ + key,
    }
}

/// Splits a full wire property name into its kind and bare name:
/// `string:<name>` and `number:<name>` are accepted, anything else is
/// rejected.
pub fn parse_property_key(full_name: &str) -> (r: Option<(PropertyKind, String)>)
    ensures
        (r matches Some(p) ==> full_name@ == spec_wire_name(p.0, p.1@)),
        (r is None ==> !spec_has_prefix(full_name@, "string:"@) && !spec_has_prefix(
            full_name@,
            "number:"@,
        )),
        (spec_has_prefix(full_name@, "string:"@) ==> (r matches Some(p) && p.0 is Text)),
        (spec_has_prefix(full_name@, "number:"@) ==> (r matches Some(p) && p.0 is Number)),
{
    proof {
        reveal_strlit("string:");
        reveal_strlit("number:");
    }
    let len = full_name.unicode_len();
    if has_prefix(full_name, "string:") {
        let rest = full_name.substring_char(7, len);
        proof {
            assert(full_name@ =~= "string:"@ + full_name@.subrange(7, full_name@.len() as int));
            if spec_has_prefix(full_name@, "number:"@) {
                assert(full_name@.subrange(0, 7)[0] == 's' && full_name@.subrange(0, 7)[0] == 'n');
            }
        }
        Some((PropertyKind::Text, rest.to_owned()))
    } else if has_prefix(full_name, "number:") {
        let rest = full_name.substring_char(7, len);
        proof {
            assert(full_name@ =~= "number:"@ + full_name@.subrange(7, full_name@.len() as int));
        }
        Some((PropertyKind::Number, rest.to_owned()))
    } else {
        None
    }
}

/// A map from property names to values. Keys are unique; insertion order
/// is kept.
pub struct PropertyMap {
    pub entries: Vec<(String, PropertyValue)>,
}

impl PropertyMap {
    /// The pairs held, keys as character sequences.
    pub open spec fn view(&self) -> Seq<(Seq<char>, PropertyValue)> {
        self.entries@.map(|i: int, e: (String, PropertyValue)| (e.0@, e.1))
    }

    /// Keys are pairwise distinct.
    pub open spec fn wf(&self) -> bool {
        forall|i: int, j: int|
            0 <= i < j < self.view().len() ==> #[trigger] self.view()[i].0 != #[trigger] self.view()[j].0
    }

    /// The first index holding `key`, if any.
    pub open spec fn spec_index_of(&self, key: Seq<char>) -> int {
        choose|i: int| 0 <= i < self.view().len() && self.view()[i].0 == key
    }

    /// Whether some entry holds `key`.
    pub open spec fn spec_contains_key(&self, key: Seq<char>) -> bool {
        exists|i: int| 0 <= i < self.view().len() && #[trigger] self.view()[i].0 == key
    }

    pub fn new() -> (r: PropertyMap)
        ensures
            r@.len() == 0,
            r.wf(),
    {
        PropertyMap { entries: Vec::new() }
    }

    /// As [`PropertyMap::new`]; the capacity is a hint only.
    pub fn with_capacity(capacity: usize) -> (r: PropertyMap)
        ensures
            r@.len() == 0,
            r.wf(),
    {
        PropertyMap { entries: Vec::with_capacity(capacity) }
    }

    pub fn is_empty(&self) -> (r: bool)
        ensures
            r == (self@.len() == 0),
    {
        self.entries.len() == 0
    }

    pub fn len(&self) -> (r: usize)
        ensures
            r == self@.len(),
    {
        self.entries.len()
    }

    /// The entry at `index`, for walking the map in insertion order.
    pub fn entry_at(&self, index: usize) -> (r: &(String, PropertyValue))
        requires
            index < self@.len(),
        ensures
            (r.0@, r.1) == self@[index as int],
    {
        &self.entries[index]
    }

    fn find_key(&self, key: &String) -> (r: Option<usize>)
        ensures
            (r matches Some(i) ==> 0 <= i < self@.len() && self@[i as int].0 == key@),
            (r is None ==> !self.spec_contains_key(key@)),
    {
        let mut i: usize = 0;
        let len = self.entries.len();
        while i < len
            invariant
                0 <= i <= len,
                len == self@.len(),
                forall|j: int| 0 <= j < i ==> #[trigger] self@[j].0 != key@,
            decreases len - i,
        {
            if self.entries[i].0 == *key {
                return Some(i);
            }
            i = i + 1;
        }
        None
    }

    /// Inserts `value` under `key`: replaces the value of the entry
    /// already holding `key`, or appends a new entry.
    pub fn insert(&mut self, key: String, value: PropertyValue)
        requires
            old(self).wf(),
        ensures
            final(self).wf(),
            (old(self).spec_contains_key(key@) ==> final(self)@ =~= old(self)@.update(
                old(self).spec_index_of(key@),
                (key@, value),
            )),
            (!old(self).spec_contains_key(key@) ==> final(self)@ =~= old(self)@.push(
                (key@, value),
            )),
    {
        match self.find_key(&key) {
            Some(i) => {
                proof {
                    assert(self.spec_contains_key(key@)) by {
                        assert(self@[i as int].0 == key@);
                    }
                    let k = self.spec_index_of(key@);
                    assert(0 <= k < self@.len() && self@[k].0 == key@);
                    assert(k == i as int);
                }
                self.entries.set(i, (key, value));
                proof {
                    assert forall|a: int, b: int|
                        0 <= a < b < self@.len() implies self@[a].0 != self@[b].0 by {
                        assert(self@[a].0 == old(self)@[a].0);
                        assert(self@[b].0 == old(self)@[b].0);
                    }
                }
            },
            None => {
                self.entries.push((key, value));
                proof {
                    assert forall|a: int, b: int|
                        0 <= a < b < self@.len() implies self@[a].0 != self@[b].0 by {
                        assert(self@[a].0 == old(self)@[a].0);
                        if b == self@.len() - 1 {
                            assert(self@[b].0 == key@);
                            assert(old(self)@[a].0 != key@);
                        } else {
                            assert(self@[b].0 == old(self)@[b].0);
                            assert(old(self)@[a].0 != old(self)@[b].0);
                        }
                    }
                }
            },
        }
    }

    /// Inserts a numeric property.
    pub fn insert_number(&mut self, key: String, value: NotNan)
        requires
            old(self).wf(),
        ensures
            final(self).wf(),
            (old(self).spec_contains_key(key@) ==> final(self)@ =~= old(self)@.update(
                old(self).spec_index_of(key@),
                (key@, PropertyValue::Number(value)),
            )),
            (!old(self).spec_contains_key(key@) ==> final(self)@ =~= old(self)@.push(
                (key@, PropertyValue::Number(value)),
            )),
    {
        self.insert(key, PropertyValue::Number(value));
    }

    /// Inserts a string property.
    pub fn insert_string(&mut self, key: String, value: String)
        requires
            old(self).wf(),
        ensures
            final(self).wf(),
            (old(self).spec_contains_key(key@) ==> final(self)@ =~= old(self)@.update(
                old(self).spec_index_of(key@),
                (key@, PropertyValue::Text(value)),
            )),
            (!old(self).spec_contains_key(key@) ==> final(self)@ =~= old(self)@.push(
                (key@, PropertyValue::Text(value)),
            )),
    {
        self.insert(key, PropertyValue::Text(value));
    }
}

/// Whether a property survives serialization: blank string values are
/// dropped from the wire form, everything else is kept.
pub open spec fn spec_wire_kept(value: PropertyValue) -> bool {
    match value {
        PropertyValue::Text(s) => !spec_is_blank(s@),
        PropertyValue::Number(_) => true,
    }
}

/// The kind tag a value carries on the wire.
pub open spec fn spec_kind_of(value: PropertyValue) -> PropertyKind {
    match value {
        PropertyValue::Text(_) => PropertyKind::Text,
        PropertyValue::Number(_) => PropertyKind::Number,
    }
}

/// The wire entries of a property map: kept entries in map order, each
/// under its prefixed full name.
pub open spec fn spec_wire_entries(entries: Seq<(Seq<char>, PropertyValue)>) -> Seq<
    (Seq<char>, PropertyValue),
>
    decreases entries.len(),
{
    if entries.len() == 0 {
        Seq::empty()
    } else {
        let rest = spec_wire_entries(entries.drop_last());
        let last = entries.last();
        if spec_wire_kept(last.1) {
            rest.push((spec_wire_name(spec_kind_of(last.1), last.0), last.1))
        } else {
            rest
        }
    }
}

impl PropertyMap {
    /// Serializes the map to its wire entries: every kept property in map
    /// order under its prefixed name, blank string values dropped.
    pub fn wire_entries(&self) -> (r: Vec<(String, PropertyValue)>)
        ensures
            r@.map(|i: int, e: (String, PropertyValue)| (e.0@, e.1)) =~= spec_wire_entries(
                self@,
            ),
    {
        proof {
            reveal_strlit("string:");
            reveal_strlit("number:");
        }
        let len = self.entries.len();
        let mut out: Vec<(String, PropertyValue)> = Vec::new();
        let mut i: usize = 0;
        while i < len
            invariant
                0 <= i <= len,
                len == self@.len(),
                out@.map(|k: int, e: (String, PropertyValue)| (e.0@, e.1)) =~= spec_wire_entries(
                    self@.take(i as int),
                ),
            decreases len - i,
        {
            proof {
                assert(self@.take(i + 1).drop_last() =~= self@.take(i as int));
                assert(self@.take(i + 1).last() == self@[i as int]);
            }
            let entry = &self.entries[i];
            match &entry.1 {
                PropertyValue::Text(value) => {
                    if !is_blank(value.as_str()) {
                        let mut full: String = String::from_str("string:");
                        full.append(entry.0.as_str());
                        out.push((full, PropertyValue::Text(value.clone())));
                    }
                },
                PropertyValue::Number(value) => {
                    let mut full: String = String::from_str("number:");
                    full.append(entry.0.as_str());
                    out.push((full, PropertyValue::Number(*value)));
                },
            }
            i = i + 1;
        }
        proof {
            assert(self@.take(len as int) =~= self@);
        }
        out
    }
}

} // verus!
