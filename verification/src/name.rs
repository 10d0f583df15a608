//! Domain names: an owning `Name` of raw labels, and `LowerName`, a name
//! normalized for case-insensitive comparison, with the zone-containment
//! relation the authority layer routes by.

use vstd::prelude::*;

verus! {

/// The byte that separates labels in the presentation form of a name.
pub const LABEL_SEPARATOR: u8 = 46;

/// The most bytes one label may hold on the wire.
pub const MAX_LABEL_LEN: usize = 63;

/// The most bytes a whole name may occupy on the wire: each label costs a
/// length byte plus its bytes, and the name ends with one null-label byte.
pub const MAX_NAME_LEN: usize = 255;

/// A label is valid when it is non-empty, fits in its wire length byte, and
/// holds no separator byte.
pub open spec fn valid_label(label: Seq<u8>) -> bool {
    &&& 1 <= label.len() <= MAX_LABEL_LEN
    &&& forall|i: int| 0 <= i < label.len() ==> label[i] != LABEL_SEPARATOR
}

/// The bytes a name of these labels occupies on the wire: a length byte and
/// the bytes of each label, then the final null label.
pub open spec fn wire_len(labels: Seq<Seq<u8>>) -> int
    decreases labels.len(),
{
    if labels.len() == 0 {
        1
    } else {
        1 + labels[0].len() + wire_len(labels.skip(1))
    }
}

/// A name is valid when every label is and the whole fits on the wire.
pub open spec fn valid_name(labels: Seq<Seq<u8>>) -> bool {
    &&& forall|i: int| 0 <= i < labels.len() ==> valid_label(#[trigger] labels[i])
    &&& wire_len(labels) <= MAX_NAME_LEN
}

/// The position of the first separator in `s`, or `s.len()` if there is none.
pub open spec fn first_separator(s: Seq<u8>) -> nat
    decreases s.len(),
{
    if s.len() == 0 {
        0
    } else if s[0] == LABEL_SEPARATOR {
        0
    } else {
        (1 + first_separator(s.skip(1))) as nat
    }
}

/// The labels of the presentation form `s`: the runs of bytes between
/// separators, a trailing separator ending the last label.
pub open spec fn spec_labels(s: Seq<u8>) -> Seq<Seq<u8>>
    decreases s.len(),
{
    if s.len() == 0 {
        Seq::empty()
    } else {
        let d = first_separator(s);
        if d >= s.len() {
            seq![s]
        } else {
            seq![s.take(d as int)] + spec_labels(s.skip(d + 1int))
        }
    }
}

/// The single separator byte names the root; any other input is read as
/// labels, which must form a valid name.
pub open spec fn parseable(s: Seq<u8>) -> bool {
    s == seq![LABEL_SEPARATOR] || valid_name(spec_labels(s))
}

/// What a successful parse of `s` yields.
pub open spec fn spec_parse(s: Seq<u8>) -> Seq<Seq<u8>> {
    if s == seq![LABEL_SEPARATOR] {
        Seq::empty()
    } else {
        spec_labels(s)
    }
}

/// A name of these labels occupies at least one byte on the wire.
proof fn lemma_wire_len_at_least_one(labels: Seq<Seq<u8>>)
    ensures
        wire_len(labels) >= 1,
    decreases labels.len(),
{
    if labels.len() > 0 {
        lemma_wire_len_at_least_one(labels.skip(1));
    }
}

/// Appending a label adds its bytes and one length byte to the wire form.
proof fn lemma_wire_len_push(labels: Seq<Seq<u8>>, label: Seq<u8>)
    ensures
        wire_len(labels.push(label)) == wire_len(labels) + 1 + label.len(),
    decreases labels.len(),
{
    if labels.len() == 0 {
        assert(wire_len(Seq::<Seq<u8>>::empty()) == 1);
        assert(labels.push(label)[0] == label);
        assert(labels.push(label).skip(1) =~= Seq::<Seq<u8>>::empty());
    } else {
        assert(labels.push(label)[0] == labels[0]);
        assert(labels.push(label).skip(1) =~= labels.skip(1).push(label));
        lemma_wire_len_push(labels.skip(1), label);
    }
}

/// The wire forms of two label runs share one final null label.
proof fn lemma_wire_len_concat(a: Seq<Seq<u8>>, b: Seq<Seq<u8>>)
    ensures
        wire_len(a + b) == wire_len(a) + wire_len(b) - 1,
    decreases a.len(),
{
    if a.len() == 0 {
        assert(a + b =~= b);
    } else {
        assert((a + b).skip(1) =~= a.skip(1) + b);
        lemma_wire_len_concat(a.skip(1), b);
    }
}

/// `first_separator` finds exactly the position before which no separator
/// stands and at which one stands, or the end.
proof fn lemma_first_separator_at(s: Seq<u8>, k: int)
    requires
        0 <= k <= s.len(),
        forall|i: int| 0 <= i < k ==> s[i] != LABEL_SEPARATOR,
        k == s.len() || s[k] == LABEL_SEPARATOR,
    ensures
        first_separator(s) == k,
    decreases k,
{
    if s.len() == 0 {
    } else if s[0] == LABEL_SEPARATOR {
        assert(k == 0);
    } else {
        assert(k >= 1);
        assert(forall|i: int| 0 <= i < k - 1 ==> s.skip(1)[i] != LABEL_SEPARATOR);
        lemma_first_separator_at(s.skip(1), k - 1);
    }
}

/// A fresh vector holding `bytes[from..to]`.
fn copy_range(bytes: &[u8], from: usize, to: usize) -> (r: Vec<u8>)
    requires
        from <= to <= bytes@.len(),
    ensures
        r@ == bytes@.subrange(from as int, to as int),
{
    let mut r: Vec<u8> = Vec::new();
    let mut k: usize = from;
    while k < to
        invariant
            from <= k <= to <= bytes@.len(),
            r@ == bytes@.subrange(from as int, k as int),
        decreases to - k,
    {
        r.push(bytes[k]);
        k = k + 1;
        proof {
            assert(r@ =~= bytes@.subrange(from as int, k as int));
        }
    }
    r
}

/// An immutable domain name: a sequence of labels, most specific first, the
/// root being the empty sequence.
#[derive(Debug)]
pub struct Name {
    labels: Vec<Vec<u8>>,
}

/// A fresh copy of a byte vector, equal to the original.
fn copy_bytes(v: &Vec<u8>) -> (r: Vec<u8>)
    ensures
        r@ == v@,
{
    let mut r: Vec<u8> = Vec::new();
    let mut i: usize = 0;
    while i < v.len()
        invariant
            0 <= i <= v.len(),
            r@ == v@.take(i as int),
        decreases v.len() - i,
    {
        r.push(v[i]);
        i = i + 1;
        proof {
            assert(r@ =~= v@.take(i as int));
        }
    }
    proof {
        assert(r@ =~= v@);
    }
    r
}

/// A fresh copy of a label list, equal to the original label for label.
fn copy_labels(labels: &Vec<Vec<u8>>) -> (r: Vec<Vec<u8>>)
    ensures
        r@.map_values(|l: Vec<u8>| l@) == labels@.map_values(|l: Vec<u8>| l@),
{
    let mut r: Vec<Vec<u8>> = Vec::new();
    let mut i: usize = 0;
    while i < labels.len()
        invariant
            0 <= i <= labels.len(),
            r@.len() == i,
            forall|j: int| 0 <= j < i ==> r@[j]@ == labels@[j]@,
        decreases labels.len() - i,
    {
        r.push(copy_bytes(&labels[i]));
        i = i + 1;
    }
    proof {
        assert(r@.map_values(|l: Vec<u8>| l@) =~= labels@.map_values(|l: Vec<u8>| l@));
    }
    r
}

impl Clone for Name {
    /// A clone names exactly what the original names.
    fn clone(&self) -> (r: Self)
        ensures
            r@ == self@,
    {
        Name { labels: copy_labels(&self.labels) }
    }
}

impl View for Name {
    type V = Seq<Seq<u8>>;

    closed spec fn view(&self) -> Seq<Seq<u8>> {
        self.labels@.map_values(|l: Vec<u8>| l@)
    }
}

impl Name {
    /// Every name this module hands out is valid.
    pub open spec fn wf(&self) -> bool {
        valid_name(self@)
    }

    /// The root of the namespace: no labels at all.
    pub fn root() -> (r: Name)
        ensures
            r@ == Seq::<Seq<u8>>::empty(),
            r.wf(),
    {
        let r = Name { labels: Vec::new() };
        proof {
            assert(r@ =~= Seq::<Seq<u8>>::empty());
            reveal_with_fuel(wire_len, 1);
        }
        r
    }

    /// How many labels the name has.
    pub fn label_count(&self) -> (r: usize)
        ensures
            r == self@.len(),
    {
        self.labels.len()
    }

    /// True of the root alone.
    pub fn is_root(&self) -> (r: bool)
        ensures
            r == (self@.len() == 0),
    {
        self.labels.len() == 0
    }

    /// The labels themselves, most specific first.
    pub fn labels(&self) -> (r: &Vec<Vec<u8>>)
        ensures
            r@.map_values(|l: Vec<u8>| l@) == self@,
    {
        &self.labels
    }

    /// Reads a name from its presentation form: labels separated by dots, an
    /// optional trailing dot, the lone dot naming the root. `None` exactly
    /// when the input is not a valid name.
    pub fn from_ascii(bytes: &[u8]) -> (r: Option<Name>)
        ensures
            r is Some <==> parseable(bytes@),
            r matches Some(n) ==> n@ == spec_parse(bytes@) && n.wf(),
    {
        if bytes.len() == 1 && bytes[0] == LABEL_SEPARATOR {
            proof {
                assert(bytes@ =~= seq![LABEL_SEPARATOR]);
            }
            return Some(Name::root());
        }
        proof {
            assert(bytes@ != seq![LABEL_SEPARATOR]) by {
                if bytes@ == seq![LABEL_SEPARATOR] {
                    assert(bytes@.len() == 1);
                    assert(bytes@[0] == LABEL_SEPARATOR);
                }
            }
        }
        let ghost s = bytes@;
        let mut labels: Vec<Vec<u8>> = Vec::new();
        let mut total: usize = 1;
        let mut j: usize = 0;
        proof {
            assert(labels@.map_values(|l: Vec<u8>| l@) =~= Seq::<Seq<u8>>::empty());
            assert(s.skip(0) =~= s);
            assert(Seq::<Seq<u8>>::empty() + spec_labels(s) =~= spec_labels(s));
        }
        while j < bytes.len()
            invariant
                bytes@ == s,
                s != seq![LABEL_SEPARATOR],
                j <= s.len(),
                total == wire_len(labels@.map_values(|l: Vec<u8>| l@)),
                total <= MAX_NAME_LEN,
                forall|i: int| 0 <= i < labels@.len() ==> valid_label(#[trigger] labels@[i]@),
                spec_labels(s) == labels@.map_values(|l: Vec<u8>| l@) + spec_labels(
                    s.skip(j as int),
                ),
            decreases s.len() - j,
        {
            let ghost lv = labels@.map_values(|l: Vec<u8>| l@);
            let mut end: usize = j;
            while end < bytes.len() && bytes[end] != LABEL_SEPARATOR
                invariant
                    bytes@ == s,
                    j <= end <= s.len(),
                    forall|i: int| j <= i < end ==> s[i] != LABEL_SEPARATOR,
                decreases s.len() - end,
            {
                end = end + 1;
            }
            let ghost t = s.skip(j as int);
            proof {
                assert(forall|i: int| 0 <= i < end - j ==> t[i] != LABEL_SEPARATOR);
                lemma_first_separator_at(t, end - j);
            }
            let label_len = end - j;
            if label_len == 0 || label_len > MAX_LABEL_LEN {
                proof {
                    let whole = spec_labels(s);
                    let first = if end - j == t.len() {
                        t
                    } else {
                        t.take(end - j)
                    };
                    assert(spec_labels(t).len() >= 1);
                    assert(spec_labels(t)[0] == first);
                    assert(!valid_label(first));
                    assert(whole.len() == lv.len() + spec_labels(t).len());
                    assert(whole[lv.len() as int] == first);
                    assert(!valid_name(whole));
                }
                return None;
            }
            if total > MAX_NAME_LEN - 1 - label_len {
                proof {
                    let whole = spec_labels(s);
                    let suffix = spec_labels(t);
                    lemma_wire_len_concat(lv, suffix);
                    if end - j == t.len() {
                        assert(wire_len(Seq::<Seq<u8>>::empty()) == 1);
                        assert(suffix =~= seq![t]);
                        assert(suffix[0] == t);
                        assert(suffix.skip(1) =~= Seq::<Seq<u8>>::empty());
                        assert(wire_len(suffix) == 1 + t.len() + 1);
                    } else {
                        let rest = spec_labels(t.skip(end - j + 1));
                        assert(suffix =~= seq![t.take(end - j)] + rest);
                        assert(suffix[0] == t.take(end - j));
                        assert(suffix.skip(1) =~= rest);
                        lemma_wire_len_at_least_one(rest);
                        assert(wire_len(suffix) >= 1 + (end - j) + 1);
                    }
                    assert(wire_len(whole) > MAX_NAME_LEN);
                    assert(!valid_name(whole));
                }
                return None;
            }
            total = total + 1 + label_len;
            let label = copy_range(bytes, j, end);
            labels.push(label);
            proof {
                let lv2 = labels@.map_values(|l: Vec<u8>| l@);
                assert(lv2 =~= lv.push(s.subrange(j as int, end as int)));
                assert(valid_label(s.subrange(j as int, end as int))) by {
                    assert(forall|m: int|
                        0 <= m < end - j ==> s.subrange(j as int, end as int)[m] == s[j + m]);
                };
                lemma_wire_len_push(lv, s.subrange(j as int, end as int));
                if end - j == t.len() {
                    assert(t =~= s.subrange(j as int, end as int));
                    assert(spec_labels(t) =~= seq![t]);
                    assert(spec_labels(s) =~= lv2);
                    assert(s.skip(s.len() as int) =~= Seq::<u8>::empty());
                    assert(spec_labels(s) =~= lv2 + spec_labels(s.skip(s.len() as int)));
                } else {
                    assert(t.take(end - j) =~= s.subrange(j as int, end as int));
                    assert(t.skip(end - j + 1) =~= s.skip(end + 1));
                    assert(spec_labels(t) =~= seq![t.take(end - j)] + spec_labels(
                        s.skip(end + 1),
                    ));
                    assert(spec_labels(s) =~= lv2 + spec_labels(s.skip(end + 1)));
                }
            }
            if end == bytes.len() {
                j = bytes.len();
            } else {
                j = end + 1;
            }
        }
        proof {
            let lv = labels@.map_values(|l: Vec<u8>| l@);
            assert(s.skip(j as int) =~= Seq::<u8>::empty());
            assert(spec_labels(s) =~= lv + spec_labels(Seq::<u8>::empty()));
            assert(spec_labels(s) =~= lv);
            assert(valid_name(spec_labels(s)));
        }
        Some(Name { labels })
    }

    /// Builds a name from raw labels; `None` exactly when they do not form a
    /// valid name.
    pub fn from_labels(labels: Vec<Vec<u8>>) -> (r: Option<Name>)
        ensures
            r is Some <==> valid_name(labels@.map_values(|l: Vec<u8>| l@)),
            r matches Some(n) ==> n@ == labels@.map_values(|l: Vec<u8>| l@) && n.wf(),
    {
        let ghost lv = labels@.map_values(|l: Vec<u8>| l@);
        let mut total: usize = 1;
        let mut i: usize = 0;
        while i < labels.len()
            invariant
                lv == labels@.map_values(|l: Vec<u8>| l@),
                i <= labels@.len(),
                total == wire_len(lv.take(i as int)),
                total <= MAX_NAME_LEN,
                forall|k: int| 0 <= k < i ==> valid_label(#[trigger] lv[k]),
            decreases labels@.len() - i,
        {
            let label = &labels[i];
            proof {
                assert(lv[i as int] == labels@[i as int]@);
            }
            if label.len() == 0 || label.len() > MAX_LABEL_LEN {
                proof {
                    assert(!valid_label(lv[i as int]));
                }
                return None;
            }
            let mut k: usize = 0;
            while k < label.len()
                invariant
                    lv == labels@.map_values(|l: Vec<u8>| l@),
                    0 <= i < lv.len(),
                    label@ == lv[i as int],
                    k <= label@.len(),
                    forall|m: int| 0 <= m < k ==> label@[m] != LABEL_SEPARATOR,
                decreases label@.len() - k,
            {
                if label[k] == LABEL_SEPARATOR {
                    proof {
                        assert(!valid_label(lv[i as int]));
                    }
                    return None;
                }
                k = k + 1;
            }
            if total > MAX_NAME_LEN - 1 - label.len() {
                proof {
                    lemma_wire_len_push(lv.take(i as int), lv[i as int]);
                    assert(lv.take(i + 1) =~= lv.take(i as int).push(lv[i as int]));
                    assert(lv =~= lv.take(i + 1) + lv.skip(i + 1));
                    lemma_wire_len_concat(lv.take(i + 1), lv.skip(i + 1));
                    lemma_wire_len_at_least_one(lv.skip(i + 1));
                    assert(wire_len(lv) > MAX_NAME_LEN);
                }
                return None;
            }
            total = total + 1 + label.len();
            proof {
                lemma_wire_len_push(lv.take(i as int), lv[i as int]);
                assert(lv.take(i + 1) =~= lv.take(i as int).push(lv[i as int]));
            }
            i = i + 1;
        }
        proof {
            assert(lv.take(labels@.len() as int) =~= lv);
        }
        Some(Name { labels })
    }
}

/// The case-folded image of one byte: an ASCII upper-case letter maps to its
/// lower-case form, every other byte stays.
pub open spec fn lower_byte(b: u8) -> u8 {
    if 65 <= b <= 90 {
        (b + 32) as u8
    } else {
        b
    }
}

/// A label, case-folded byte for byte.
pub open spec fn lower_label(label: Seq<u8>) -> Seq<u8> {
    label.map_values(|b: u8| lower_byte(b))
}

/// A whole name, case-folded label for label.
pub open spec fn lower_labels(labels: Seq<Seq<u8>>) -> Seq<Seq<u8>> {
    labels.map_values(|l: Seq<u8>| lower_label(l))
}

/// Case folding keeps every label valid and the name's wire length.
proof fn lemma_lower_preserves_valid(labels: Seq<Seq<u8>>)
    requires
        valid_name(labels),
    ensures
        valid_name(lower_labels(labels)),
    decreases labels.len(),
{
    assert forall|i: int| 0 <= i < labels.len() implies valid_label(
        #[trigger] lower_labels(labels)[i],
    ) by {
        assert(valid_label(labels[i]));
        assert(forall|k: int|
            0 <= k < labels[i].len() ==> lower_labels(labels)[i][k] == lower_byte(
                labels[i][k],
            ));
    }
    lemma_lower_keeps_wire_len(labels);
}

/// Case folding changes no label's length, hence not the wire length.
proof fn lemma_lower_keeps_wire_len(labels: Seq<Seq<u8>>)
    ensures
        wire_len(lower_labels(labels)) == wire_len(labels),
    decreases labels.len(),
{
    if labels.len() == 0 {
        assert(lower_labels(labels) =~= Seq::<Seq<u8>>::empty());
    } else {
        assert(lower_labels(labels)[0] == lower_label(labels[0]));
        assert(lower_labels(labels).skip(1) =~= lower_labels(labels.skip(1)));
        lemma_lower_keeps_wire_len(labels.skip(1));
    }
}

/// Whether two byte vectors hold the same bytes.
fn bytes_eq(a: &Vec<u8>, b: &Vec<u8>) -> (r: bool)
    ensures
        r == (a@ == b@),
{
    if a.len() != b.len() {
        return false;
    }
    let mut i: usize = 0;
    while i < a.len()
        invariant
            a@.len() == b@.len(),
            i <= a@.len(),
            forall|j: int| 0 <= j < i ==> a@[j] == b@[j],
        decreases a@.len() - i,
    {
        if a[i] != b[i] {
            return false;
        }
        i = i + 1;
    }
    proof {
        assert(a@ =~= b@);
    }
    true
}

/// A domain name normalized for case-insensitive comparison: the same labels
/// as the `Name` it was built from, case-folded.
#[derive(Debug)]
pub struct LowerName {
    name: Name,
}

impl View for LowerName {
    type V = Seq<Seq<u8>>;

    closed spec fn view(&self) -> Seq<Seq<u8>> {
        self.name@
    }
}

impl Clone for LowerName {
    /// A clone names exactly what the original names.
    fn clone(&self) -> (r: Self)
        ensures
            r@ == self@,
    {
        LowerName { name: self.name.clone() }
    }
}

impl LowerName {
    /// Every normalized name is valid and is its own case-folded image.
    pub open spec fn wf(&self) -> bool {
        &&& valid_name(self@)
        &&& self@ == lower_labels(self@)
    }

    /// Normalizes a name for case-insensitive comparison.
    pub fn new(name: &Name) -> (r: LowerName)
        ensures
            r@ == lower_labels(name@),
            name.wf() ==> r.wf(),
    {
        let ghost nv = name@;
        let source = name.labels();
        let mut labels: Vec<Vec<u8>> = Vec::new();
        let mut i: usize = 0;
        while i < source.len()
            invariant
                source@.map_values(|l: Vec<u8>| l@) == nv,
                i <= source@.len(),
                labels@.len() == i,
                forall|j: int| 0 <= j < i ==> labels@[j]@ == lower_label(nv[j]),
            decreases source@.len() - i,
        {
            let label = &source[i];
            let mut folded: Vec<u8> = Vec::new();
            let mut k: usize = 0;
            while k < label.len()
                invariant
                    k <= label@.len(),
                    folded@.len() == k,
                    forall|m: int| 0 <= m < k ==> folded@[m] == lower_byte(label@[m]),
                decreases label@.len() - k,
            {
                let b = label[k];
                if 65 <= b && b <= 90 {
                    folded.push(b + 32);
                } else {
                    folded.push(b);
                }
                k = k + 1;
            }
            proof {
                assert(folded@ =~= lower_label(source@[i as int]@));
            }
            labels.push(folded);
            i = i + 1;
        }
        let r = LowerName { name: Name { labels } };
        proof {
            assert(r@ =~= lower_labels(nv));
            if name.wf() {
                lemma_lower_preserves_valid(nv);
                assert forall|j: int| 0 <= j < r@.len() implies #[trigger] r@[j]
                    == lower_label(r@[j]) by {
                    assert(r@[j] == lower_label(nv[j]));
                    assert(forall|m: int|
                        0 <= m < nv[j].len() ==> lower_byte(lower_byte(nv[j][m])) == lower_byte(
                            nv[j][m],
                        ));
                    assert(lower_label(lower_label(nv[j])) =~= lower_label(nv[j]));
                }
                assert(r@ =~= lower_labels(r@));
            }
        }
        r
    }

    /// The zone-containment relation: this name's labels end `name`'s labels,
    /// so `name` is equal to this name or lies under it.
    pub open spec fn spec_zone_of(self, name: LowerName) -> bool {
        &&& self@.len() <= name@.len()
        &&& self@ == name@.skip(name@.len() - self@.len())
    }

    /// Whether `name` is equal to this name or a subdomain of it.
    pub fn zone_of(&self, name: &LowerName) -> (r: bool)
        ensures
            r == self.spec_zone_of(*name),
    {
        let ours = &self.name.labels;
        let theirs = &name.name.labels;
        if ours.len() > theirs.len() {
            return false;
        }
        let offset = theirs.len() - ours.len();
        let mut i: usize = 0;
        while i < ours.len()
            invariant
                ours@.map_values(|l: Vec<u8>| l@) == self@,
                theirs@.map_values(|l: Vec<u8>| l@) == name@,
                ours@.len() <= theirs@.len(),
                theirs@.len() <= usize::MAX,
                offset == theirs@.len() - ours@.len(),
                i <= ours@.len(),
                forall|j: int| 0 <= j < i ==> self@[j] == name@[offset + j],
            decreases ours@.len() - i,
        {
            if !bytes_eq(&ours[i], &theirs[offset + i]) {
                proof {
                    assert(self@[i as int] != name@[offset + i]);
                }
                return false;
            }
            i = i + 1;
        }
        proof {
            assert(self@ =~= name@.skip(name@.len() - self@.len()));
        }
        true
    }

    /// How many labels the name has.
    pub fn label_count(&self) -> (r: usize)
        ensures
            r == self@.len(),
    {
        self.name.label_count()
    }

    /// True of the root alone.
    pub fn is_root(&self) -> (r: bool)
        ensures
            r == (self@.len() == 0),
    {
        self.name.is_root()
    }

    /// The case-folded labels, most specific first.
    pub fn labels(&self) -> (r: &Vec<Vec<u8>>)
        ensures
            r@.map_values(|l: Vec<u8>| l@) == self@,
    {
        self.name.labels()
    }
}

impl PartialEq for LowerName {
    /// Two normalized names are equal exactly when their labels are.
    fn eq(&self, other: &Self) -> (r: bool) {
        let ours = &self.name.labels;
        let theirs = &other.name.labels;
        if ours.len() != theirs.len() {
            proof {
                assert(self@ != other@);
            }
            return false;
        }
        let mut i: usize = 0;
        while i < ours.len()
            invariant
                ours@.map_values(|l: Vec<u8>| l@) == self@,
                theirs@.map_values(|l: Vec<u8>| l@) == other@,
                self@.len() == other@.len(),
                i <= ours@.len(),
                forall|j: int| 0 <= j < i ==> self@[j] == other@[j],
            decreases ours@.len() - i,
        {
            if !bytes_eq(&ours[i], &theirs[i]) {
                proof {
                    assert(self@[i as int] != other@[i as int]);
                }
                return false;
            }
            i = i + 1;
        }
        proof {
            assert(self@ =~= other@);
        }
        true
    }
}

impl Eq for LowerName {

}

impl vstd::std_specs::cmp::PartialEqSpecImpl for LowerName {
    open spec fn obeys_eq_spec() -> bool {
        true
    }

    open spec fn eq_spec(&self, other: &Self) -> bool {
        self@ == other@
    }
}

} // verus!
