use vstd::prelude::*;

use crate::document::{has_text, with_fields, DocModel, Document};

verus! {

/// Selects the documents that hold the text `value` under `key`.
#[derive(Debug, PartialEq, Eq)]
pub struct Filter {
    pub key: String,
    pub value: String,
}

pub struct FilterModel {
    pub key: Seq<char>,
    pub value: Seq<char>,
}

impl View for Filter {
    type V = FilterModel;

    open spec fn view(&self) -> FilterModel {
        FilterModel { key: self.key@, value: self.value@ }
    }
}

/// Whether a document is selected by a filter.
pub open spec fn selects(f: FilterModel, d: DocModel) -> bool {
    has_text(d, f.key, f.value)
}

/// One operation on a collection of documents.
#[derive(Debug, PartialEq, Eq)]
pub enum StoreOp {
    /// Insert a new document, whatever the collection already holds.
    InsertOne(Document),
    /// Set the given fields on one document that the filter selects.
    UpdateOne(Filter, Document),
    /// Remove one document that the filter selects.
    DeleteOne(Filter),
    /// Read one document that the filter selects.
    FindOne(Filter),
}

pub enum OpModel {
    InsertOne(DocModel),
    UpdateOne(FilterModel, DocModel),
    DeleteOne(FilterModel),
    FindOne(FilterModel),
}

impl View for StoreOp {
    type V = OpModel;

    open spec fn view(&self) -> OpModel {
        match self {
            StoreOp::InsertOne(d) => OpModel::InsertOne(d@),
            StoreOp::UpdateOne(f, d) => OpModel::UpdateOne(f@, d@),
            StoreOp::DeleteOne(f) => OpModel::DeleteOne(f@),
            StoreOp::FindOne(f) => OpModel::FindOne(f@),
        }
    }
}

/// What the store reports back for one operation.
#[derive(Debug, PartialEq, Eq)]
pub enum StoreResult {
    Inserted,
    Updated { matched: u64 },
    Deleted { deleted: u64 },
    Found(Option<Document>),
    /// The store could not carry the operation out.
    Failed,
}

pub enum ResultModel {
    Inserted,
    Updated { matched: u64 },
    Deleted { deleted: u64 },
    Found(Option<DocModel>),
    Failed,
}

impl View for StoreResult {
    type V = ResultModel;

    open spec fn view(&self) -> ResultModel {
        match self {
            StoreResult::Inserted => ResultModel::Inserted,
            StoreResult::Updated { matched } => ResultModel::Updated { matched: *matched },
            StoreResult::Deleted { deleted } => ResultModel::Deleted { deleted: *deleted },
            StoreResult::Found(None) => ResultModel::Found(None),
            StoreResult::Found(Some(d)) => ResultModel::Found(Some(d@)),
            StoreResult::Failed => ResultModel::Failed,
        }
    }
}

/// The position of the first document at or after `i` that `f` selects, or -1 where there is none.
pub open spec fn first_match_from(c: Seq<DocModel>, f: FilterModel, i: int) -> int
    decreases c.len() - i,
{
    if i < 0 || i >= c.len() {
        -1
    } else if selects(f, c[i]) {
        i
    } else {
        first_match_from(c, f, i + 1)
    }
}

/// The position of the first document that `f` selects, or -1 where there is none.
pub open spec fn first_match(c: Seq<DocModel>, f: FilterModel) -> int {
    first_match_from(c, f, 0)
}

/// A successful store step: the collection after the operation, and what is reported. Where
/// several documents are selected, the operation acts on the first of them.
pub open spec fn step(c: Seq<DocModel>, op: OpModel) -> (Seq<DocModel>, ResultModel) {
    match op {
        OpModel::InsertOne(d) => (c.push(d), ResultModel::Inserted),
        OpModel::UpdateOne(f, s) => {
            let i = first_match(c, f);
            if i < 0 {
                (c, ResultModel::Updated { matched: 0 })
            } else {
                (c.update(i, with_fields(c[i], s)), ResultModel::Updated { matched: 1 })
            }
        },
        OpModel::DeleteOne(f) => {
            let i = first_match(c, f);
            if i < 0 {
                (c, ResultModel::Deleted { deleted: 0 })
            } else {
                (c.remove(i), ResultModel::Deleted { deleted: 1 })
            }
        },
        OpModel::FindOne(f) => {
            let i = first_match(c, f);
            if i < 0 {
                (c, ResultModel::Found(None))
            } else {
                (c, ResultModel::Found(Some(c[i])))
            }
        },
    }
}

pub proof fn lemma_first_match_from_range(c: Seq<DocModel>, f: FilterModel, i: int)
    ensures
        first_match_from(c, f, i) == -1 || (i <= first_match_from(c, f, i) < c.len() && selects(
            f,
            c[first_match_from(c, f, i)],
        )),
        first_match_from(c, f, i) == -1 ==> forall|j: int| 0 <= i <= j < c.len() ==> !selects(f, #[trigger] c[j]),
        forall|j: int| 0 <= i <= j < first_match_from(c, f, i) ==> !selects(f, #[trigger] c[j]),
    decreases c.len() - i,
{
    if i < 0 || i >= c.len() {
    } else if selects(f, c[i]) {
    } else {
        lemma_first_match_from_range(c, f, i + 1);
        assert forall|j: int| 0 <= i <= j < first_match_from(c, f, i) implies !selects(f, #[trigger] c[j]) by {
            if j > i {
                assert(i + 1 <= j < first_match_from(c, f, i + 1));
            }
        }
    }
}

/// Characterises the first selected document by what comes before it.
pub proof fn lemma_first_match_unique(c: Seq<DocModel>, f: FilterModel, i: int)
    requires
        -1 <= i < c.len(),
        i >= 0 ==> selects(f, c[i]),
        forall|j: int| 0 <= j < c.len() && (i < 0 || j < i) ==> !selects(f, #[trigger] c[j]),
    ensures
        first_match(c, f) == i,
{
    lemma_first_match_from_range(c, f, 0);
    if first_match(c, f) != i {
        if i >= 0 {
            assert(!selects(f, c[i]));
        } else {
            assert(!selects(f, c[first_match(c, f)]));
        }
    }
}

/// A collection of documents held in memory, which carries out each operation as `step` describes.
pub struct MemoryCollection {
    docs: Vec<Document>,
}

impl View for MemoryCollection {
    type V = Seq<DocModel>;

    closed spec fn view(&self) -> Seq<DocModel> {
        self.docs@.map_values(|d: Document| d@)
    }
}

impl MemoryCollection {
    pub fn new() -> (r: MemoryCollection)
        ensures
            r@ == Seq::<DocModel>::empty(),
    {
        let r = MemoryCollection { docs: Vec::new() };
        proof {
            assert(r@ =~= Seq::<DocModel>::empty());
        }
        r
    }

    pub fn len(&self) -> (r: usize)
        ensures
            r == self@.len(),
    {
        self.docs.len()
    }

    fn first_match(&self, f: &Filter) -> (r: Option<usize>)
        ensures
            match r {
                None => first_match(self@, f@) == -1,
                Some(i) => first_match(self@, f@) == i as int && i < self@.len(),
            },
    {
        let mut i: usize = 0;
        while i < self.docs.len()
            invariant
                i <= self.docs.len(),
                first_match(self@, f@) == first_match_from(self@, f@, i as int),
            decreases self.docs.len() - i,
        {
            if self.docs[i].has_text(&f.key, &f.value) {
                return Some(i);
            }
            i = i + 1;
        }
        None
    }

    /// Carries out one operation, with the effect and the report that `step` gives.
    pub fn execute(&mut self, op: &StoreOp) -> (r: StoreResult)
        ensures
            (final(self)@, r@) == step(old(self)@, op@),
    {
        match op {
            StoreOp::InsertOne(d) => {
                let ghost dv = d@;
                self.docs.push(d.duplicate());
                proof {
                    assert(self@ =~= old(self)@.push(dv));
                }
                StoreResult::Inserted
            },
            StoreOp::UpdateOne(f, s) => {
                match self.first_match(f) {
                    None => StoreResult::Updated { matched: 0 },
                    Some(i) => {
                        let mut d = self.docs.remove(i);
                        let ghost before = d@;
                        d.set_all(s);
                        self.docs.insert(i, d);
                        proof {
                            assert(self@ =~= old(self)@.update(i as int, with_fields(before, s@)));
                        }
                        StoreResult::Updated { matched: 1 }
                    },
                }
            },
            StoreOp::DeleteOne(f) => {
                match self.first_match(f) {
                    None => StoreResult::Deleted { deleted: 0 },
                    Some(i) => {
                        self.docs.remove(i);
                        proof {
                            assert(self@ =~= old(self)@.remove(i as int));
                        }
                        StoreResult::Deleted { deleted: 1 }
                    },
                }
            },
            StoreOp::FindOne(f) => {
                match self.first_match(f) {
                    None => StoreResult::Found(None),
                    Some(i) => StoreResult::Found(Some(self.docs[i].duplicate())),
                }
            },
        }
    }
}

} // verus!
