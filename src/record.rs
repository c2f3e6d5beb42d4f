//! Entities returned by the content API, held as named text fields.

use vstd::prelude::*;

verus! {

/// The fields of a record, as name/value pairs.
pub type FieldsModel = Seq<(Seq<char>, Seq<char>)>;

/// The value of the first field called `name`, or the empty text when the
/// record has no such field.
pub open spec fn field_of(fields: FieldsModel, name: Seq<char>) -> Seq<char>
    decreases fields.len(),
{
    if fields.len() == 0 {
        Seq::empty()
    } else if fields[0].0 == name {
        fields[0].1
    } else {
        field_of(fields.drop_first(), name)
    }
}

/// One entity of the content API (a post, a comment, a subspace, a user).
#[derive(Debug)]
pub struct Record {
    pub fields: Vec<(String, String)>,
}

impl DeepView for Record {
    type V = FieldsModel;

    open spec fn deep_view(&self) -> FieldsModel {
        self.fields.deep_view()
    }
}

impl Record {
    pub fn new(fields: Vec<(String, String)>) -> (r: Record)
        ensures
            r.deep_view() == fields.deep_view(),
    {
        Record { fields }
    }

    /// The value of field `name`; empty when the record lacks it.
    pub fn field(&self, name: &String) -> (r: String)
        ensures
            r@ == field_of(self.deep_view(), name@),
    {
        let n = self.fields.len();
        let mut i: usize = 0;
        assert(self.deep_view().subrange(0, n as int) =~= self.deep_view());
        while i < n
            invariant
                n == self.fields.len(),
                i <= n,
                field_of(self.deep_view(), name@) == field_of(self.deep_view().subrange(i as int, n as int), name@),
            decreases n - i,
        {
            let ghost rest = self.deep_view().subrange(i as int, n as int);
            assert(rest.drop_first() =~= self.deep_view().subrange(i + 1, n as int));
            if self.fields[i].0 == *name {
                return self.fields[i].1.clone();
            }
            i = i + 1;
        }
        String::new()
    }

    /// A copy of this record.
    pub fn duplicate(&self) -> (r: Record)
        ensures
            r.deep_view() == self.deep_view(),
    {
        let mut fields: Vec<(String, String)> = Vec::new();
        let n = self.fields.len();
        let mut i: usize = 0;
        while i < n
            invariant
                n == self.fields.len(),
                i <= n,
                fields.deep_view() =~= self.deep_view().subrange(0, i as int),
            decreases n - i,
        {
            let name = self.fields[i].0.clone();
            let value = self.fields[i].1.clone();
            let ghost before = fields.deep_view();
            fields.push((name, value));
            assert(fields.deep_view() =~= before.push(self.deep_view()[i as int]));
            i = i + 1;
        }
        Record { fields }
    }
}

/// A copy of a list of records.
pub fn duplicate_all(v: &Vec<Record>) -> (r: Vec<Record>)
    ensures
        r.deep_view() == v.deep_view(),
{
    let mut out: Vec<Record> = Vec::new();
    let n = v.len();
    let mut i: usize = 0;
    while i < n
        invariant
            n == v.len(),
            i <= n,
            out.deep_view() =~= v.deep_view().subrange(0, i as int),
        decreases n - i,
    {
        let r = v[i].duplicate();
        let ghost before = out.deep_view();
        out.push(r);
        assert(out.deep_view() =~= before.push(v.deep_view()[i as int]));
        i = i + 1;
    }
    out
}

} // verus!
