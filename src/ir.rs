//! The resolved description of queries and custom types that the emitters
//! read.

use vstd::prelude::*;

use crate::ty::PreparedField;

verus! {

/// A row shape or a parameter shape.
#[derive(Clone, Debug)]
pub struct PreparedItem {
    pub name: String,
    pub fields: Vec<PreparedField>,
    /// Every field is trivially copyable.
    pub is_copy: bool,
    /// The shape gets a generated struct rather than a bare value.
    pub is_named: bool,
    /// Some field borrows, so the struct takes a lifetime.
    pub is_ref: bool,
}

/// Content of a custom type.
#[derive(Clone, Debug)]
pub enum PreparedContent {
    Enum(Vec<String>),
    Composite(Vec<PreparedField>),
}

/// A custom database type.
#[derive(Clone, Debug)]
pub struct PreparedType {
    /// Name of the type in the database.
    pub name: String,
    /// Name of the generated type.
    pub struct_name: String,
    pub content: PreparedContent,
    pub is_copy: bool,
    /// The borrowed form already serves as parameters.
    pub is_params: bool,
}

/// A query: the row shape it returns, with the result column of each row
/// field, and the parameter shape it takes, with the declared field at each
/// SQL position.
#[derive(Clone, Debug)]
pub struct PreparedQuery {
    pub name: String,
    pub sql: String,
    pub row: Option<(usize, Vec<usize>)>,
    pub param: Option<(usize, Vec<usize>)>,
}

/// Queries, row shapes and parameter shapes of one output module.
#[derive(Clone, Debug)]
pub struct PreparedModule {
    pub name: String,
    pub queries: Vec<PreparedQuery>,
    pub rows: Vec<PreparedItem>,
    pub params: Vec<PreparedItem>,
}

/// Custom types by schema, and the modules of queries.
#[derive(Clone, Debug)]
pub struct Preparation {
    pub types: Vec<(String, Vec<PreparedType>)>,
    pub modules: Vec<PreparedModule>,
}

/// Options of one generation run.
#[derive(Clone, Copy, Debug, PartialEq, Eq, Structural)]
pub struct CodegenSettings {
    pub is_async: bool,
    pub derive_ser: bool,
}

impl PreparedQuery {
    /// The references of the query stay inside the module's shapes.
    pub open spec fn wf_in(&self, m: PreparedModule) -> bool {
        &&& (self.row matches Some((i, cols)) ==> i < m.rows@.len()
            && cols@.len() == m.rows@[i as int].fields@.len())
        &&& (self.param matches Some((i, order)) ==> i < m.params@.len()
            && m.params@[i as int].fields@.len() < usize::MAX
            && forall|k: int| 0 <= k < order@.len() ==> order@[k] < m.params@[i as int].fields@.len())
        &&& (self.row matches Some((i, _)) ==> !m.rows@[i as int].is_named ==> m.rows@[i as int].fields@.len() > 0)
    }
}

impl PreparedModule {
    pub open spec fn wf(&self) -> bool {
        &&& forall|q: int| 0 <= q < self.queries@.len() ==> #[trigger] self.queries@[q].wf_in(*self)
        &&& forall|r: int| 0 <= r < self.rows@.len() ==> !(#[trigger] self.rows@[r]).is_named
            ==> self.rows@[r].fields@.len() > 0
        &&& forall|p: int| 0 <= p < self.params@.len() ==> (#[trigger] self.params@[p]).fields@.len() < usize::MAX
    }
}

impl Preparation {
    pub open spec fn wf(&self) -> bool {
        forall|m: int| 0 <= m < self.modules@.len() ==> #[trigger] self.modules@[m].wf()
    }
}

impl PreparedQuery {
    /// Whether the references of the query stay inside the module's shapes.
    pub fn is_well_formed_in(&self, m: &PreparedModule) -> (r: bool)
        ensures
            r == self.wf_in(*m),
    {
        match &self.row {
            Some((i, cols)) => {
                if *i >= m.rows.len() || cols.len() != m.rows[*i].fields.len() {
                    return false;
                }
                if !m.rows[*i].is_named && m.rows[*i].fields.len() == 0 {
                    return false;
                }
            },
            None => {},
        }
        match &self.param {
            Some((i, order)) => {
                if *i >= m.params.len() || m.params[*i].fields.len() == usize::MAX {
                    return false;
                }
                let n = m.params[*i].fields.len();
                let mut k: usize = 0;
                while k < order.len()
                    invariant
                        k <= order@.len(),
                        *i < m.params@.len(),
                        self.param matches Some((pi, po)) && pi == *i && po@ == order@,
                        n == m.params@[*i as int].fields@.len(),
                        forall|j: int| 0 <= j < k ==> order@[j] < n,
                    decreases order@.len() - k,
                {
                    if order[k] >= n {
                        return false;
                    }
                    k = k + 1;
                }
            },
            None => {},
        }
        true
    }
}

impl PreparedModule {
    /// Whether the module is well formed.
    pub fn is_well_formed(&self) -> (r: bool)
        ensures
            r == self.wf(),
    {
        let mut i: usize = 0;
        while i < self.queries.len()
            invariant
                i <= self.queries@.len(),
                forall|q: int| 0 <= q < i ==> #[trigger] self.queries@[q].wf_in(*self),
            decreases self.queries@.len() - i,
        {
            if !self.queries[i].is_well_formed_in(self) {
                return false;
            }
            i = i + 1;
        }
        let mut i: usize = 0;
        while i < self.rows.len()
            invariant
                i <= self.rows@.len(),
                forall|r: int| 0 <= r < i ==> !(#[trigger] self.rows@[r]).is_named ==> self.rows@[r].fields@.len() > 0,
            decreases self.rows@.len() - i,
        {
            if !self.rows[i].is_named && self.rows[i].fields.len() == 0 {
                return false;
            }
            i = i + 1;
        }
        let mut i: usize = 0;
        while i < self.params.len()
            invariant
                i <= self.params@.len(),
                forall|p: int| 0 <= p < i ==> (#[trigger] self.params@[p]).fields@.len() < usize::MAX,
            decreases self.params@.len() - i,
        {
            if self.params[i].fields.len() == usize::MAX {
                return false;
            }
            i = i + 1;
        }
        true
    }
}

impl Preparation {
    /// Whether every module is well formed.
    pub fn is_well_formed(&self) -> (r: bool)
        ensures
            r == self.wf(),
    {
        let mut i: usize = 0;
        while i < self.modules.len()
            invariant
                i <= self.modules@.len(),
                forall|m: int| 0 <= m < i ==> #[trigger] self.modules@[m].wf(),
            decreases self.modules@.len() - i,
        {
            if !self.modules[i].is_well_formed() {
                return false;
            }
            i = i + 1;
        }
        true
    }
}

} // verus!
