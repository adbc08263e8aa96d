//! The graph: every model and enum of a schema, found by name.

use crate::model::Model;
use crate::model::Relation;
use crate::text::same_text;
use vstd::prelude::*;

verus! {

/// A named, ordered set of strings.
pub struct EnumDef {
    pub name: String,
    pub values: Vec<String>,
}

pub struct Graph {
    pub models: Vec<Model>,
    pub enums: Vec<EnumDef>,
    pub host_url: String,
}

/// The first model of the name at or after a position.
pub open spec fn first_model(models: Seq<Model>, name: Seq<char>, from: int) -> Option<Model>
    decreases models.len() - from,
{
    if from < 0 || from >= models.len() {
        None
    } else if models[from].name@ == name {
        Some(models[from])
    } else {
        first_model(models, name, from + 1)
    }
}

/// The first enum of the name at or after a position.
pub open spec fn first_enum(enums: Seq<EnumDef>, name: Seq<char>, from: int) -> Option<EnumDef>
    decreases enums.len() - from,
{
    if from < 0 || from >= enums.len() {
        None
    } else if enums[from].name@ == name {
        Some(enums[from])
    } else {
        first_enum(enums, name, from + 1)
    }
}

/// No two models have one name.
pub open spec fn names_differ(models: Seq<Model>) -> bool {
    forall|i: int, j: int| 0 <= j < i < models.len() ==> models[j].name@ != models[i].name@
}

/// Whether a model has each field of the names.
pub open spec fn has_fields(model: Model, names: Seq<String>) -> bool {
    forall|k: int| 0 <= k < names.len() ==> model.spec_field((#[trigger] names[k])@) is Some
}

/// Whether a relation of a model fits the graph: it has as many local
/// fields as remote ones, its local fields are fields of the model, its
/// remote model is in the graph and has the remote fields, and no field of
/// the model has the relation's name.
pub open spec fn relation_fits(graph: Graph, model: Model, relation: Relation) -> bool {
    &&& relation.fields@.len() == relation.references@.len()
    &&& model.spec_field(relation.name@) is None
    &&& has_fields(model, relation.fields@)
    &&& graph.spec_model(relation.model@) matches Some(remote) && has_fields(
        remote,
        relation.references@,
    )
}

/// Whether a model has a primary key.
pub open spec fn has_primary_key(model: Model) -> bool {
    exists|i: int| 0 <= i < model.fields@.len() && (#[trigger] model.fields@[i]).primary
}

/// Whether a model fits the graph: its key sets follow from its fields, it
/// has a primary key, and each of its relations fits.
pub open spec fn model_fits(graph: Graph, model: Model) -> bool {
    &&& model.well_formed()
    &&& has_primary_key(model)
    &&& forall|k: int|
        0 <= k < model.relations@.len() ==> relation_fits(graph, model, #[trigger] model.relations@[k])
}

/// Whether a model has each field of the names.
fn holds_fields(model: &Model, names: &Vec<String>) -> (r: bool)
    ensures
        r == has_fields(*model, names@),
{
    let mut k: usize = 0;
    while k < names.len()
        invariant
            k <= names.len(),
            forall|j: int| 0 <= j < k ==> model.spec_field((#[trigger] names@[j])@) is Some,
        decreases names.len() - k,
    {
        if model.field(names[k].as_str()).is_none() {
            return false;
        }
        k += 1;
    }
    true
}

impl Graph {
    /// The schema holds together: no two models have one name, and every
    /// model fits the graph.
    pub open spec fn well_formed(&self) -> bool {
        &&& names_differ(self.models@)
        &&& forall|i: int|
            0 <= i < self.models@.len() ==> model_fits(*self, #[trigger] self.models@[i])
    }

    /// Whether a relation of a model fits the graph.
    pub fn fits_relation(&self, model: &Model, relation: &Relation) -> (r: bool)
        ensures
            r == relation_fits(*self, *model, *relation),
    {
        if relation.fields.len() != relation.references.len() {
            return false;
        }
        if model.field(relation.name.as_str()).is_some() {
            return false;
        }
        if !holds_fields(model, &relation.fields) {
            return false;
        }
        match self.model(relation.model.as_str()) {
            Some(remote) => holds_fields(remote, &relation.references),
            None => false,
        }
    }

    /// Whether a model fits the graph.
    pub fn fits_model(&self, model: &Model) -> (r: bool)
        ensures
            r == model_fits(*self, *model),
    {
        if !model.is_well_formed() {
            return false;
        }
        let mut found = false;
        let mut i: usize = 0;
        while i < model.fields.len()
            invariant
                i <= model.fields.len(),
                found == exists|j: int| 0 <= j < i && (#[trigger] model.fields@[j]).primary,
            decreases model.fields.len() - i,
        {
            if model.fields[i].primary {
                found = true;
            }
            i += 1;
        }
        if !found {
            return false;
        }
        let mut k: usize = 0;
        while k < model.relations.len()
            invariant
                k <= model.relations.len(),
                has_primary_key(*model),
                model.well_formed(),
                forall|j: int|
                    0 <= j < k ==> relation_fits(*self, *model, #[trigger] model.relations@[j]),
            decreases model.relations.len() - k,
        {
            if !self.fits_relation(model, &model.relations[k]) {
                return false;
            }
            k += 1;
        }
        true
    }

    /// Whether the schema holds together.
    pub fn is_well_formed(&self) -> (r: bool)
        ensures
            r == self.well_formed(),
    {
        let mut i: usize = 0;
        while i < self.models.len()
            invariant
                i <= self.models.len(),
                forall|a: int, b: int|
                    0 <= b < a < i ==> (#[trigger] self.models@[b]).name@ != (
                    #[trigger] self.models@[a]).name@,
                forall|j: int| 0 <= j < i ==> model_fits(*self, #[trigger] self.models@[j]),
            decreases self.models.len() - i,
        {
            let mut j: usize = 0;
            while j < i
                invariant
                    j <= i,
                    i < self.models.len(),
                    forall|k: int| 0 <= k < j ==> self.models@[k].name@ != self.models@[i as int].name@,
                decreases i - j,
            {
                if same_text(self.models[j].name.as_str(), self.models[i].name.as_str()) {
                    return false;
                }
                j += 1;
            }
            if !self.fits_model(&self.models[i]) {
                return false;
            }
            i += 1;
        }
        true
    }

    /// The model of the name, where the graph has one.
    pub open spec fn spec_model(&self, name: Seq<char>) -> Option<Model> {
        first_model(self.models@, name, 0)
    }

    /// The values of the enum of the name, where the graph has one.
    pub open spec fn spec_enum_values(&self, name: Seq<char>) -> Option<Seq<String>> {
        match first_enum(self.enums@, name, 0) {
            Some(e) => Some(e.values@),
            None => None,
        }
    }

    pub fn new(models: Vec<Model>, enums: Vec<EnumDef>, host_url: String) -> (g: Graph)
        ensures
            g.models == models,
            g.enums == enums,
            g.host_url == host_url,
    {
        Graph { models, enums, host_url }
    }

    pub fn model(&self, name: &str) -> (r: Option<&Model>)
        ensures
            match r {
                Some(m) => self.spec_model(name@) == Some(*m),
                None => self.spec_model(name@) is None,
            },
    {
        let mut i: usize = 0;
        while i < self.models.len()
            invariant
                i <= self.models.len(),
                self.spec_model(name@) == first_model(self.models@, name@, i as int),
            decreases self.models.len() - i,
        {
            if same_text(self.models[i].name.as_str(), name) {
                return Some(&self.models[i]);
            }
            i += 1;
        }
        None
    }

    pub fn enum_values(&self, name: &str) -> (r: Option<&Vec<String>>)
        ensures
            match r {
                Some(v) => self.spec_enum_values(name@) == Some(v@),
                None => self.spec_enum_values(name@) is None,
            },
    {
        let mut i: usize = 0;
        while i < self.enums.len()
            invariant
                i <= self.enums.len(),
                first_enum(self.enums@, name@, 0) == first_enum(self.enums@, name@, i as int),
            decreases self.enums.len() - i,
        {
            if same_text(self.enums[i].name.as_str(), name) {
                return Some(&self.enums[i].values);
            }
            i += 1;
        }
        None
    }
}

} // verus!
