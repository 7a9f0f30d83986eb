use vstd::prelude::*;

verus! {

/// A byte that a header value may hold and still read as text:
/// visible ASCII or a horizontal tab.
pub open spec fn is_visible_ascii(b: u8) -> bool {
    (32 <= b && b < 127) || b == 9
}

pub open spec fn is_text_value(v: Seq<u8>) -> bool {
    forall|i: int| 0 <= i < v.len() ==> is_visible_ascii(#[trigger] v[i])
}

/// One header line as the connection delivered it: a name and raw value bytes.
#[derive(Clone, Debug)]
pub struct HeaderField {
    pub name: String,
    pub value: Vec<u8>,
}

/// The method and header lines of an inbound request, in arrival order.
#[derive(Clone, Debug)]
pub struct RequestHead {
    pub method: String,
    pub headers: Vec<HeaderField>,
}

/// What the handler receives: the method and one value per header name.
#[derive(Clone, Debug)]
pub struct RequestEnvelope {
    pub method: String,
    pub headers: Vec<HeaderField>,
}

#[derive(Clone, Debug, PartialEq, Eq)]
pub enum ProtocolError {
    /// The header line at this position has a value that is not text.
    NonTextHeader { index: usize },
}

pub open spec fn field_view(h: HeaderField) -> (Seq<char>, Seq<u8>) {
    (h.name@, h.value@)
}

pub open spec fn fields_view(hs: Seq<HeaderField>) -> Seq<(Seq<char>, Seq<u8>)> {
    hs.map_values(|h: HeaderField| field_view(h))
}

/// The mapping that a sequence of header lines denotes: a later line for a
/// name replaces an earlier one.
pub open spec fn header_map(hs: Seq<(Seq<char>, Seq<u8>)>) -> Map<Seq<char>, Seq<u8>>
    decreases hs.len(),
{
    if hs.len() == 0 {
        Map::empty()
    } else {
        header_map(hs.drop_last()).insert(hs.last().0, hs.last().1)
    }
}

pub open spec fn all_text(hs: Seq<(Seq<char>, Seq<u8>)>) -> bool {
    forall|i: int| 0 <= i < hs.len() ==> is_text_value(#[trigger] hs[i].1)
}

pub open spec fn names_unique(hs: Seq<(Seq<char>, Seq<u8>)>) -> bool {
    forall|i: int, j: int| 0 <= i < hs.len() && 0 <= j < hs.len() && i != j ==> #[trigger] hs[i].0 != #[trigger] hs[j].0
}

impl RequestEnvelope {
    /// Header names are distinct and every value is text.
    pub open spec fn wf(&self) -> bool {
        names_unique(fields_view(self.headers@)) && all_text(fields_view(self.headers@))
    }

    /// The envelope's headers as a mapping from name to value.
    pub open spec fn header_view(&self) -> Map<Seq<char>, Seq<u8>> {
        header_map(fields_view(self.headers@))
    }
}

proof fn lemma_header_map_domain(hs: Seq<(Seq<char>, Seq<u8>)>, k: Seq<char>)
    ensures
        header_map(hs).contains_key(k) <==> exists|j: int| 0 <= j < hs.len() && #[trigger] hs[j].0 == k,
    decreases hs.len(),
{
    if hs.len() > 0 {
        lemma_header_map_domain(hs.drop_last(), k);
        if header_map(hs).contains_key(k) && hs.last().0 != k {
            let j = choose|j: int| 0 <= j < hs.drop_last().len() && #[trigger] hs.drop_last()[j].0 == k;
            assert(hs[j].0 == k);
        }
        if exists|j: int| 0 <= j < hs.len() && #[trigger] hs[j].0 == k {
            let j = choose|j: int| 0 <= j < hs.len() && #[trigger] hs[j].0 == k;
            if j < hs.len() - 1 {
                assert(hs.drop_last()[j].0 == k);
            }
        }
    }
}

proof fn lemma_header_map_lookup(hs: Seq<(Seq<char>, Seq<u8>)>, j: int)
    requires
        names_unique(hs),
        0 <= j < hs.len(),
    ensures
        header_map(hs).contains_key(hs[j].0),
        header_map(hs)[hs[j].0] == hs[j].1,
    decreases hs.len(),
{
    if j < hs.len() - 1 {
        let d = hs.drop_last();
        assert(names_unique(d)) by {
            assert forall|a: int, b: int| 0 <= a < d.len() && 0 <= b < d.len() && a != b implies #[trigger] d[a].0 != #[trigger] d[b].0 by {
                assert(d[a] == hs[a] && d[b] == hs[b]);
            }
        }
        lemma_header_map_lookup(d, j);
        assert(hs[hs.len() - 1].0 != hs[j].0);
        assert(d[j] == hs[j]);
    }
}

proof fn lemma_header_map_update(hs: Seq<(Seq<char>, Seq<u8>)>, j: int, v: Seq<u8>)
    requires
        names_unique(hs),
        0 <= j < hs.len(),
    ensures
        header_map(hs.update(j, (hs[j].0, v))) == header_map(hs).insert(hs[j].0, v),
    decreases hs.len(),
{
    let k = hs[j].0;
    let s2 = hs.update(j, (k, v));
    if j == hs.len() - 1 {
        assert(s2.drop_last() =~= hs.drop_last());
        assert(header_map(s2) =~= header_map(hs).insert(k, v));
    } else {
        let d = hs.drop_last();
        assert(names_unique(d)) by {
            assert forall|a: int, b: int| 0 <= a < d.len() && 0 <= b < d.len() && a != b implies #[trigger] d[a].0 != #[trigger] d[b].0 by {
                assert(d[a] == hs[a] && d[b] == hs[b]);
            }
        }
        lemma_header_map_update(d, j, v);
        assert(s2.drop_last() =~= d.update(j, (k, v)));
        assert(hs.last().0 != k) by {
            assert(hs[hs.len() - 1].0 != hs[j].0);
        }
        assert(header_map(s2) =~= header_map(hs).insert(k, v));
    }
}

proof fn lemma_fields_view_push(hs: Seq<HeaderField>, h: HeaderField)
    ensures
        fields_view(hs.push(h)) == fields_view(hs).push(field_view(h)),
{
    assert(fields_view(hs.push(h)) =~= fields_view(hs).push(field_view(h)));
}

/// Whether every byte of a header value reads as text.
pub fn value_is_text(v: &Vec<u8>) -> (r: bool)
    ensures
        r == is_text_value(v@),
{
    let mut i: usize = 0;
    while i < v.len()
        invariant
            0 <= i <= v.len(),
            forall|k: int| 0 <= k < i ==> is_visible_ascii(#[trigger] v@[k]),
        decreases v.len() - i,
    {
        let b = v[i];
        if !((32 <= b && b < 127) || b == 9) {
            return false;
        }
        i = i + 1;
    }
    true
}

/// The position of the line named `name`, if there is one.
fn find_field(fields: &Vec<HeaderField>, name: &String) -> (r: Option<usize>)
    ensures
        match r {
            Some(j) => j < fields.len() && fields@[j as int].name@ == name@,
            None => forall|k: int| 0 <= k < fields.len() ==> (#[trigger] fields@[k]).name@ != name@,
        },
{
    let mut j: usize = 0;
    while j < fields.len()
        invariant
            0 <= j <= fields.len(),
            forall|k: int| 0 <= k < j ==> (#[trigger] fields@[k]).name@ != name@,
        decreases fields.len() - j,
    {
        if fields[j].name == *name {
            return Some(j);
        }
        j = j + 1;
    }
    None
}

impl RequestEnvelope {
    /// The value of the header called `name`, if the request carried one.
    pub fn header_value(&self, name: &String) -> (r: Option<&Vec<u8>>)
        requires
            self.wf(),
        ensures
            match r {
                Some(v) => self.header_view().contains_key(name@) && self.header_view()[name@] == v@,
                None => !self.header_view().contains_key(name@),
            },
    {
        let ghost hs = fields_view(self.headers@);
        match find_field(&self.headers, name) {
            Some(j) => {
                proof {
                    assert(hs[j as int] == field_view(self.headers@[j as int]));
                    lemma_header_map_lookup(hs, j as int);
                }
                Some(&self.headers[j].value)
            },
            None => {
                proof {
                    lemma_header_map_domain(hs, name@);
                    if header_map(hs).contains_key(name@) {
                        let k = choose|k: int| 0 <= k < hs.len() && #[trigger] hs[k].0 == name@;
                        assert(hs[k] == field_view(self.headers@[k]));
                    }
                }
                None
            },
        }
    }
}

/// Builds the envelope for a request. Every header value must read as text;
/// the first one that does not is reported, and no header is dropped.
pub fn build_envelope(head: &RequestHead) -> (r: Result<RequestEnvelope, ProtocolError>)
    ensures
        match r {
            Ok(env) => {
                &&& all_text(fields_view(head.headers@))
                &&& env.wf()
                &&& env.method@ == head.method@
                &&& env.header_view() == header_map(fields_view(head.headers@))
            },
            Err(ProtocolError::NonTextHeader { index }) => {
                &&& index < head.headers.len()
                &&& !is_text_value(head.headers@[index as int].value@)
                &&& forall|k: int| 0 <= k < index ==> is_text_value(#[trigger] head.headers@[k].value@)
            },
        },
        r is Err <==> !all_text(fields_view(head.headers@)),
{
    let mut out: Vec<HeaderField> = Vec::new();
    let mut i: usize = 0;
    while i < head.headers.len()
        invariant
            0 <= i <= head.headers.len(),
            forall|k: int| 0 <= k < i ==> is_text_value(#[trigger] head.headers@[k].value@),
            names_unique(fields_view(out@)),
            all_text(fields_view(out@)),
            header_map(fields_view(out@)) == header_map(fields_view(head.headers@.subrange(0, i as int))),
        decreases head.headers.len() - i,
    {
        let h = &head.headers[i];
        if !value_is_text(&h.value) {
            proof {
                assert(fields_view(head.headers@)[i as int] == field_view(head.headers@[i as int]));
                assert(fields_view(head.headers@).len() == head.headers@.len());
                assert(!is_text_value(fields_view(head.headers@)[i as int].1));
            }
            return Err(ProtocolError::NonTextHeader { index: i });
        }
        let ghost before = fields_view(out@);
        let ghost prefix = fields_view(head.headers@.subrange(0, i as int));
        let ghost fv = field_view(head.headers@[i as int]);
        assert(fields_view(head.headers@.subrange(0, i as int + 1)) =~= prefix.push(fv));
        assert(prefix.push(fv).drop_last() =~= prefix);
        assert(header_map(prefix.push(fv)) == header_map(prefix).insert(fv.0, fv.1));
        let ghost old_out = out@;
        match find_field(&out, &h.name) {
            Some(j) => {
                proof {
                    lemma_header_map_update(before, j as int, h.value@);
                }
                out.set(j, HeaderField { name: h.name.clone(), value: h.value.clone() });
                proof {
                    assert(fields_view(out@) =~= before.update(j as int, (before[j as int].0, h.value@)));
                    assert forall|a: int, b: int| 0 <= a < fields_view(out@).len() && 0 <= b < fields_view(out@).len() && a != b
                        implies #[trigger] fields_view(out@)[a].0 != #[trigger] fields_view(out@)[b].0 by {
                        assert(fields_view(out@)[a].0 == before[a].0);
                        assert(fields_view(out@)[b].0 == before[b].0);
                    }
                    assert forall|k: int| 0 <= k < fields_view(out@).len() implies is_text_value(#[trigger] fields_view(out@)[k].1) by {
                        if k != j {
                            assert(fields_view(out@)[k] == before[k]);
                        }
                    }
                }
            },
            None => {
                let f = HeaderField { name: h.name.clone(), value: h.value.clone() };
                let ghost fo = f;
                out.push(f);
                proof {
                    lemma_fields_view_push(old_out, fo);
                    let nv = fields_view(out@);
                    assert(nv.drop_last() =~= before);
                    assert forall|a: int, b: int| 0 <= a < nv.len() && 0 <= b < nv.len() && a != b
                        implies #[trigger] nv[a].0 != #[trigger] nv[b].0 by {
                        if a < before.len() {
                            assert(nv[a] == before[a]);
                            assert(before[a] == field_view(old_out[a]));
                        }
                        if b < before.len() {
                            assert(nv[b] == before[b]);
                            assert(before[b] == field_view(old_out[b]));
                        }
                    }
                    assert forall|k: int| 0 <= k < nv.len() implies is_text_value(#[trigger] nv[k].1) by {
                        if k < before.len() {
                            assert(nv[k] == before[k]);
                        }
                    }
                }
            },
        }
        i = i + 1;
    }
    proof {
        assert(head.headers@.subrange(0, head.headers.len() as int) =~= head.headers@);
        assert forall|k: int| 0 <= k < fields_view(head.headers@).len() implies is_text_value(#[trigger] fields_view(head.headers@)[k].1) by {
            assert(fields_view(head.headers@)[k] == field_view(head.headers@[k]));
        }
    }
    Ok(RequestEnvelope { method: head.method.clone(), headers: out })
}

} // verus!
