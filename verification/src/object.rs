//! The life of an object: created new, set, saved, perhaps deleted.
//!
//! The connector stores and deletes objects outside the library. The steps
//! before and after its work are functions here; the caller does the
//! connector's part between them and hands its result back.

use crate::collections::lookup;
use crate::collections::put;
use crate::collections::put_entry;
use crate::collections::get_entry;
use crate::argument::Argument;
use crate::encoder::encoded;
use crate::error::ActionError;
use crate::error::ErrorView;
use crate::field::Availability;
use crate::field::Field;
use crate::field::Store;
use crate::field::WriteRule;
use crate::graph::Graph;
use crate::json::json_items;
use crate::json::json_members;
use crate::json::Json;
use crate::json::JsonView;
use crate::model::first_field;
use crate::model::Model;
use crate::path::path_key;
use crate::path::Segment;
use crate::pipeline::Context;
use crate::pipeline::ContextView;
use crate::pipeline::Stage;
use crate::pipeline::StageView;
use crate::text::add_name;
use crate::text::contains_name;
use crate::text::has_name;
use crate::text::names_view;
use crate::text::pairs_view;
use crate::text::with_name;
use crate::value::entries_copy;
use crate::value::entries_view;
use crate::value::objects_view;
use crate::value::relations_view;
use crate::value::Env;
use crate::value::Object;
use crate::value::ObjectView;
use crate::value::Value;
use crate::value::ValueView;
use vstd::prelude::*;

verus! {

/// Why the write rule of a field refuses a value for an object, where it
/// does.
pub open spec fn write_refusal(field: Field, object: ObjectView, value: ValueView) -> Option<
    Seq<char>,
> {
    match field.write_rule {
        WriteRule::Write => None,
        WriteRule::NoWrite => Some("Field is readonly."@),
        WriteRule::WriteOnce => match lookup(object.previous_values, field.name@) {
            Some(saved) => if saved is Null {
                None
            } else {
                Some("Field can be written once."@)
            },
            None => None,
        },
        WriteRule::WriteOnCreate => if object.is_new {
            None
        } else {
            Some("Field can be written on create."@)
        },
        WriteRule::WriteNonNull => if value is Null {
            Some("Field cannot be set to null."@)
        } else {
            None
        },
    }
}

/// The context in which the pipelines of a field of an object run on a
/// value.
pub open spec fn field_context(object: ObjectView, key: Seq<char>, value: ValueView) -> ContextView {
    ContextView {
        object: Some(object),
        key_path: object.env.path.push(Segment::Key(key)),
        stage: StageView::Value(value),
        env: object.env,
    }
}

/// The object after a field was set, or why it cannot be set.
pub open spec fn set_outcome(object: ObjectView, graph: Graph, key: Seq<char>, value: ValueView) -> Result<
    ObjectView,
    ErrorView,
> {
    let place = object.env.path.push(Segment::Key(key));
    if object.is_deleted {
        Err(ErrorView::ObjectIsDeleted)
    } else {
        match graph.spec_model(object.model) {
            None => Err(ErrorView::InternalServerError("Model is not found."@)),
            Some(model) => match model.spec_field(key) {
                None => Err(ErrorView::UnexpectedInputKey(key, place)),
                Some(field) => match write_refusal(field, object, value) {
                    Some(reason) => Err(ErrorView::PermissionDenied(reason, place)),
                    None => match field.on_set_pipeline.run(field_context(object, key, value)) {
                        StageView::Invalid(reason) => Err(
                            ErrorView::ValidationError(seq![(key, reason)]),
                        ),
                        stage => Ok(
                            ObjectView {
                                values: put(object.values, key, stage.value().unwrap()),
                                dirty_fields: with_name(object.dirty_fields, key),
                                is_modified: true,
                                ..object
                            },
                        ),
                    },
                },
            },
        }
    }
}

/// The objects and the verdict that setting the entries from a position on
/// leaves. A value that a pipeline refuses is noted and the next entry is
/// tried; any other failure ends the setting.
pub open spec fn set_all(
    object: ObjectView,
    graph: Graph,
    entries: Seq<(Seq<char>, ValueView)>,
    from: int,
    refused: Seq<(Seq<char>, Seq<char>)>,
) -> (ObjectView, Result<(), ErrorView>)
    decreases entries.len() - from,
{
    if from < 0 || from >= entries.len() {
        if refused.len() == 0 {
            (object, Ok(()))
        } else {
            (object, Err(ErrorView::ValidationError(refused)))
        }
    } else {
        match set_outcome(object, graph, entries[from].0, entries[from].1) {
            Ok(next) => set_all(next, graph, entries, from + 1, refused),
            Err(ErrorView::ValidationError(more)) => set_all(
                object,
                graph,
                entries,
                from + 1,
                refused + more,
            ),
            Err(e) => (object, Err(e)),
        }
    }
}

/// Whether a field takes part in a save: it is stored, and it was set since
/// the object was last stored or the object is new.
pub open spec fn takes_part(object: ObjectView, field: Field) -> bool {
    !(field.store is Temp) && (object.is_new || object.dirty_fields.contains(field.name@))
}

/// Whether a field must have a value that the caller gives.
pub open spec fn must_be_given(field: Field) -> bool {
    field.availability == Availability::Required && !field.assigned_by_database
}

/// The value that a field has when a save begins: the one it was set to, or
/// else what its default provides. `Err` holds the reason for which the
/// pipeline of the default refused.
pub open spec fn initial_value(object: ObjectView, field: Field) -> Result<
    Option<ValueView>,
    Seq<char>,
> {
    match lookup(object.values, field.name@) {
        Some(v) => Ok(Some(v)),
        None => match field.default {
            None => Ok(None),
            Some(Argument::ValueArgument(v)) => Ok(Some(v@)),
            Some(Argument::PipelineArgument(p)) => match p.run(
                field_context(object, field.name@, ValueView::Null),
            ) {
                StageView::Invalid(reason) => Err(reason),
                stage => Ok(Some(stage.value().unwrap())),
            },
            Some(Argument::FunctionArgument(f)) => Ok(Some(f.provided(object))),
        },
    }
}

/// What a save makes of a field: the value to store, nothing where the field
/// takes no part or has no value, or the reason for which it is refused.
pub open spec fn save_of_field(object: ObjectView, field: Field) -> Result<
    Option<ValueView>,
    Seq<char>,
> {
    if !takes_part(object, field) {
        Ok(None)
    } else {
        match initial_value(object, field) {
            Err(reason) => Err(reason),
            Ok(None) => if must_be_given(field) {
                Err("Value is required."@)
            } else {
                Ok(None)
            },
            Ok(Some(v)) => if v is Null && must_be_given(field) {
                Err("Value is required."@)
            } else {
                match field.on_save_pipeline.run(field_context(object, field.name@, v)) {
                    StageView::Invalid(reason) => Err(reason),
                    stage => Ok(Some(stage.value().unwrap())),
                }
            },
        }
    }
}

/// The values to store and the refusals that the fields from a position on
/// add to those found before. Every field is tried.
pub open spec fn save_of_fields(
    object: ObjectView,
    fields: Seq<Field>,
    from: int,
    staged: Seq<(Seq<char>, ValueView)>,
    refused: Seq<(Seq<char>, Seq<char>)>,
) -> (Seq<(Seq<char>, ValueView)>, Seq<(Seq<char>, Seq<char>)>)
    decreases fields.len() - from,
{
    if from < 0 || from >= fields.len() {
        (staged, refused)
    } else {
        match save_of_field(object, fields[from]) {
            Ok(Some(v)) => save_of_fields(
                object,
                fields,
                from + 1,
                put(staged, fields[from].name@, v),
                refused,
            ),
            Ok(None) => save_of_fields(object, fields, from + 1, staged, refused),
            Err(reason) => save_of_fields(
                object,
                fields,
                from + 1,
                staged,
                refused.push((fields[from].name@, reason)),
            ),
        }
    }
}

/// The object as it goes to the connector, or why it cannot be saved.
pub open spec fn prepared(object: ObjectView, graph: Graph) -> Result<ObjectView, ErrorView> {
    if object.is_deleted {
        Err(ErrorView::ObjectIsDeleted)
    } else {
        match graph.spec_model(object.model) {
            None => Err(ErrorView::InternalServerError("Model is not found."@)),
            Some(model) => {
                let (staged, refused) = save_of_fields(
                    object,
                    model.fields@,
                    0,
                    object.values,
                    Seq::empty(),
                );
                if refused.len() == 0 {
                    Ok(ObjectView { values: staged, ..object })
                } else {
                    Err(ErrorView::ValidationError(refused))
                }
            },
        }
    }
}

/// Whether the value under a name outlives a save: its field is not one
/// whose values live only until then. Where `sent` is set the question is
/// whether the value goes to the connector, which a computed value does not
/// either.
pub open spec fn is_kept(fields: Seq<Field>, name: Seq<char>, sent: bool) -> bool {
    match first_field(fields, name, 0) {
        Some(f) => !(f.store is Temp) && !(sent && f.store is Calculated),
        None => true,
    }
}

/// The entries from a position on that are kept, after those kept before.
pub open spec fn kept_entries(
    fields: Seq<Field>,
    entries: Seq<(Seq<char>, ValueView)>,
    from: int,
    kept: Seq<(Seq<char>, ValueView)>,
    sent: bool,
) -> Seq<(Seq<char>, ValueView)>
    decreases entries.len() - from,
{
    if from < 0 || from >= entries.len() {
        kept
    } else if is_kept(fields, entries[from].0, sent) {
        kept_entries(fields, entries, from + 1, kept.push(entries[from]), sent)
    } else {
        kept_entries(fields, entries, from + 1, kept, sent)
    }
}

/// The values of an object that go to the connector: those of the fields
/// that are stored, in the order of the values.
pub open spec fn sent_values(object: ObjectView, graph: Graph) -> Seq<(Seq<char>, ValueView)> {
    match graph.spec_model(object.model) {
        Some(model) => kept_entries(model.fields@, object.values, 0, Seq::empty(), true),
        None => object.values,
    }
}

/// What an action returned, for contracts.
pub open spec fn verdict(r: Result<(), ActionError>) -> Result<(), ErrorView> {
    match r {
        Ok(_) => Ok(()),
        Err(e) => Err(e@),
    }
}

/// The object after the connector has stored it: the values that were held
/// only until the save are gone, what is left counts as stored, and nothing
/// counts as changed.
pub open spec fn stored(object: ObjectView, graph: Graph) -> ObjectView {
    let values = match graph.spec_model(object.model) {
        Some(model) => kept_entries(model.fields@, object.values, 0, Seq::empty(), false),
        None => object.values,
    };
    ObjectView {
        values,
        previous_values: values,
        dirty_fields: Seq::empty(),
        is_new: false,
        is_modified: false,
        ..object
    }
}

/// Whether a field is shown: no selection was made, or the field is one of
/// those selected.
pub open spec fn is_shown(object: ObjectView, key: Seq<char>) -> bool {
    object.selected_fields.len() == 0 || object.selected_fields.contains(key)
}

/// How one field is shown: its member, nothing where it is not shown or the
/// model has no such field, or why it cannot be shown.
pub open spec fn output_member(object: ObjectView, model: Model, key: Seq<char>) -> Result<
    Option<(Seq<char>, JsonView)>,
    ErrorView,
> {
    if !is_shown(object, key) {
        Ok(None)
    } else {
        match model.spec_field(key) {
            None => Ok(None),
            Some(field) => {
                let held = match lookup(object.values, key) {
                    Some(v) => v,
                    None => ValueView::Null,
                };
                match field.on_output_pipeline.run(field_context(object, key, held)) {
                    StageView::Invalid(reason) => Err(
                        ErrorView::ValidationError(seq![(key, reason)]),
                    ),
                    stage => match encoded(stage.value().unwrap()) {
                        Some(j) => Ok(Some((key, j))),
                        None => Err(
                            ErrorView::InternalServerError("Value cannot be written as JSON."@),
                        ),
                    },
                }
            },
        }
    }
}

/// The members that show the fields of the keys from a position on, after
/// those written before. The first field that cannot be shown ends it.
pub open spec fn output_members(
    object: ObjectView,
    model: Model,
    keys: Seq<Seq<char>>,
    from: int,
    done: Seq<(Seq<char>, JsonView)>,
) -> Result<Seq<(Seq<char>, JsonView)>, ErrorView>
    decreases keys.len() - from,
{
    if from < 0 || from >= keys.len() {
        Ok(done)
    } else {
        match output_member(object, model, keys[from]) {
            Ok(Some(m)) => output_members(object, model, keys, from + 1, done.push(m)),
            Ok(None) => output_members(object, model, keys, from + 1, done),
            Err(e) => Err(e),
        }
    }
}

/// The object as a response shows it: a JSON object with a member for each
/// field that results may show and that is selected, in the order of the
/// model, each value as the pipeline that the field has for output leaves
/// it; and after them a member for each relation whose objects are
/// included, an array of those objects shown in the same way.
pub open spec fn shown(object: ObjectView, graph: Graph) -> Result<JsonView, ErrorView>
    decreases object,
{
    match graph.spec_model(object.model) {
        None => Err(ErrorView::InternalServerError("Model is not found."@)),
        Some(model) => match output_members(
            object,
            model,
            names_view(model.local_output_keys@),
            0,
            Seq::empty(),
        ) {
            Ok(ms) => match related_members(object.included_relations, graph, model, 0, ms) {
                Ok(all) => Ok(JsonView::Object(all)),
                Err(e) => Err(e),
            },
            Err(e) => Err(e),
        },
    }
}

/// The members that show the included objects of the relations from a
/// position on, after the members written before. What is held under a name
/// that is no relation of the model is not shown.
pub open spec fn related_members(
    relations: Seq<(Seq<char>, Seq<ObjectView>)>,
    graph: Graph,
    model: Model,
    from: int,
    done: Seq<(Seq<char>, JsonView)>,
) -> Result<Seq<(Seq<char>, JsonView)>, ErrorView>
    decreases relations, relations.len() - from,
{
    if from < 0 || from >= relations.len() {
        Ok(done)
    } else if !has_name(model.relation_output_keys@, relations[from].0) {
        related_members(relations, graph, model, from + 1, done)
    } else {
        match shown_list(relations[from].1, graph, 0, Seq::empty()) {
            Ok(js) => related_members(
                relations,
                graph,
                model,
                from + 1,
                done.push((relations[from].0, JsonView::Array(js))),
            ),
            Err(e) => Err(e),
        }
    }
}

/// The objects from a position on as responses show them, after those
/// written before.
pub open spec fn shown_list(objects: Seq<ObjectView>, graph: Graph, from: int, done: Seq<JsonView>) -> Result<
    Seq<JsonView>,
    ErrorView,
>
    decreases objects, objects.len() - from,
{
    if from < 0 || from >= objects.len() {
        Ok(done)
    } else {
        match shown(objects[from], graph) {
            Ok(j) => shown_list(objects, graph, from + 1, done.push(j)),
            Err(e) => Err(e),
        }
    }
}

impl Object {
    /// Whether the object is as `new` leaves it.
    pub open spec fn is_fresh(&self, model: Seq<char>) -> bool {
        &&& self.model@ == model
        &&& self.values@.len() == 0
        &&& self.previous_values@.len() == 0
        &&& self.selected_fields@.len() == 0
        &&& self.included_relations@.len() == 0
        &&& self.is_new
        &&& !self.is_modified
        &&& !self.is_deleted
        &&& self.dirty_fields@.len() == 0
    }

    /// A new object of a model: it holds no values and was never stored.
    pub fn new(model: &Model, env: Env) -> (o: Object)
        ensures
            o.is_fresh(model.name@),
            o.env == env,
    {
        Object {
            model: model.name.clone(),
            values: Vec::new(),
            previous_values: Vec::new(),
            selected_fields: Vec::new(),
            included_relations: Vec::new(),
            is_new: true,
            is_modified: false,
            is_deleted: false,
            dirty_fields: Vec::new(),
            env,
        }
    }

    /// Why the write rule of a field refuses a value, where it does.
    fn refusal(&self, field: &Field, value: &Value) -> (r: Option<&'static str>)
        ensures
            match r {
                Some(reason) => write_refusal(*field, self@, value@) == Some(reason@),
                None => write_refusal(*field, self@, value@) is None,
            },
    {
        match field.write_rule {
            WriteRule::Write => None,
            WriteRule::NoWrite => Some("Field is readonly."),
            WriteRule::WriteOnce => match get_entry(&self.previous_values, field.name) {
                Some(saved) => match saved {
                    Value::Null => None,
                    _ => Some("Field can be written once."),
                },
                None => None,
            },
            WriteRule::WriteOnCreate => if self.is_new {
                None
            } else {
                Some("Field can be written on create.")
            },
            WriteRule::WriteNonNull => match value {
                Value::Null => Some("Field cannot be set to null."),
                _ => None,
            },
        }
    }

    /// Sets a field to a value.
    ///
    /// A deleted object takes no value. The write rule of the field decides
    /// whether the value may be written at all; then the pipeline that the
    /// field has for it works on the value and may refuse it. What is left
    /// becomes the value of the field, and the field counts as changed.
    /// Where the value is not set, the object stays as it was.
    pub fn set_value(&mut self, graph: &Graph, key: &str, value: Value) -> (r: Result<
        (),
        ActionError,
    >)
        ensures
            match r {
                Ok(_) => set_outcome(old(self)@, *graph, key@, value@) == Ok::<
                    ObjectView,
                    ErrorView,
                >(final(self)@),
                Err(e) => set_outcome(old(self)@, *graph, key@, value@) == Err::<
                    ObjectView,
                    ErrorView,
                >(e@) && final(self)@ == old(self)@,
            },
    {
        if self.is_deleted {
            return Err(ActionError::ObjectIsDeleted);
        }
        let model = match graph.model(self.model.as_str()) {
            Some(m) => m,
            None => {
                return Err(ActionError::InternalServerError("Model is not found.".to_owned()));
            },
        };
        let place = path_key(&self.env.path, key);
        let field = match model.field(key) {
            Some(f) => f,
            None => {
                return Err(ActionError::unexpected_input_key(key, &place));
            },
        };
        match self.refusal(field, &value) {
            Some(reason) => {
                return Err(ActionError::permission_denied(reason, &place));
            },
            None => {},
        }
        let ctx = Context {
            object: Some(&*self),
            key_path: &place,
            stage: Stage::Value(value),
            env: &self.env,
        };
        assert(ctx@ == field_context(self@, key@, value@));
        let stage = field.on_set_pipeline.process(ctx).stage;
        match stage {
            Stage::Invalid(reason) => {
                let mut reasons: Vec<(String, String)> = Vec::new();
                reasons.push((key.to_owned(), reason));
                assert(pairs_view(reasons@) =~= seq![(key@, reason@)]);
                Err(ActionError::ValidationError(reasons))
            },
            Stage::Value(v) | Stage::ConditionTrue(v) | Stage::ConditionFalse(v) => {
                put_entry(&mut self.values, key.to_owned(), v);
                add_name(&mut self.dirty_fields, key);
                self.is_modified = true;
                Ok(())
            },
        }
    }

    /// Sets several fields, in order.
    ///
    /// A value that a pipeline refuses does not end the setting: the values
    /// after it are tried too, and all refusals are reported together. Any
    /// other failure ends it at once. The values set before a failure stay
    /// set.
    pub fn set(&mut self, graph: &Graph, values: &Vec<(String, Value)>) -> (r: Result<
        (),
        ActionError,
    >)
        ensures
            (final(self)@, verdict(r)) == set_all(
                old(self)@,
                *graph,
                entries_view(values@),
                0,
                Seq::empty(),
            ),
    {
        let ghost whole = set_all(self@, *graph, entries_view(values@), 0, Seq::empty());
        let mut refused: Vec<(String, String)> = Vec::new();
        let mut i: usize = 0;
        assert(pairs_view(refused@) =~= Seq::empty());
        while i < values.len()
            invariant
                i <= values.len(),
                whole == set_all(old(self)@, *graph, entries_view(values@), 0, Seq::empty()),
                whole == set_all(
                    self@,
                    *graph,
                    entries_view(values@),
                    i as int,
                    pairs_view(refused@),
                ),
            decreases values.len() - i,
        {
            let ghost before = pairs_view(refused@);
            match self.set_value(graph, values[i].0.as_str(), values[i].1.duplicate()) {
                Ok(_) => {},
                Err(ActionError::ValidationError(more)) => {
                    let mut more = more;
                    let ghost added = pairs_view(more@);
                    refused.append(&mut more);
                    assert(pairs_view(refused@) =~= before + added);
                },
                Err(e) => {
                    return Err(e);
                },
            }
            i += 1;
        }
        if refused.len() == 0 {
            Ok(())
        } else {
            Err(ActionError::ValidationError(refused))
        }
    }

    /// The value that a field has when a save begins.
    fn initial(&self, field: &Field) -> (r: Result<Option<Value>, String>)
        ensures
            match r {
                Ok(Some(v)) => initial_value(self@, *field) == Ok::<Option<ValueView>, Seq<char>>(
                    Some(v@),
                ),
                Ok(None) => initial_value(self@, *field) == Ok::<Option<ValueView>, Seq<char>>(
                    None,
                ),
                Err(reason) => initial_value(self@, *field) == Err::<Option<ValueView>, Seq<char>>(
                    reason@,
                ),
            },
    {
        match get_entry(&self.values, field.name) {
            Some(v) => Ok(Some(v.duplicate())),
            None => match &field.default {
                None => Ok(None),
                Some(Argument::ValueArgument(v)) => Ok(Some(v.duplicate())),
                Some(Argument::PipelineArgument(p)) => {
                    let place = path_key(&self.env.path, field.name);
                    let ctx = Context {
                        object: Some(self),
                        key_path: &place,
                        stage: Stage::Value(Value::Null),
                        env: &self.env,
                    };
                    assert(ctx@ == field_context(self@, field.name@, ValueView::Null));
                    match p.process(ctx).stage {
                        Stage::Invalid(reason) => Err(reason),
                        Stage::Value(v) | Stage::ConditionTrue(v) | Stage::ConditionFalse(v) => Ok(
                            Some(v),
                        ),
                    }
                },
                Some(Argument::FunctionArgument(f)) => Ok(Some(f.call(self))),
            },
        }
    }

    /// What a save makes of a field.
    fn save_one(&self, field: &Field) -> (r: Result<Option<Value>, String>)
        ensures
            match r {
                Ok(Some(v)) => save_of_field(self@, *field) == Ok::<Option<ValueView>, Seq<char>>(
                    Some(v@),
                ),
                Ok(None) => save_of_field(self@, *field) == Ok::<Option<ValueView>, Seq<char>>(
                    None,
                ),
                Err(reason) => save_of_field(self@, *field) == Err::<Option<ValueView>, Seq<char>>(
                    reason@,
                ),
            },
    {
        let stored = match field.store {
            Store::Temp => false,
            _ => true,
        };
        let changed = self.is_new || contains_name(&self.dirty_fields, field.name);
        proof {
            names_hold(self.dirty_fields@, field.name@);
        }
        if !stored || !changed {
            return Ok(None);
        }
        let must = field.is_required() && !field.assigned_by_database;
        match self.initial(field) {
            Err(reason) => Err(reason),
            Ok(None) => if must {
                Err("Value is required.".to_owned())
            } else {
                Ok(None)
            },
            Ok(Some(v)) => {
                let null = match &v {
                    Value::Null => true,
                    _ => false,
                };
                if null && must {
                    Err("Value is required.".to_owned())
                } else {
                    let place = path_key(&self.env.path, field.name);
                    let ctx = Context {
                        object: Some(self),
                        key_path: &place,
                        stage: Stage::Value(v),
                        env: &self.env,
                    };
                    assert(ctx@ == field_context(self@, field.name@, v@));
                    match field.on_save_pipeline.process(ctx).stage {
                        Stage::Invalid(reason) => Err(reason),
                        Stage::Value(w) | Stage::ConditionTrue(w) | Stage::ConditionFalse(w) => Ok(
                            Some(w),
                        ),
                    }
                }
            },
        }
    }

    /// The first half of a save: makes the object ready for the connector.
    ///
    /// Each stored field that was set, or every stored field of a new
    /// object, gets its default where it has no value, must have a value
    /// where it is required, and goes through the pipeline that the field has
    /// for saving. Every field is tried; the refusals are reported together,
    /// and the object then stays as it was.
    pub fn begin_save(&mut self, graph: &Graph) -> (r: Result<(), ActionError>)
        ensures
            match r {
                Ok(_) => prepared(old(self)@, *graph) == Ok::<ObjectView, ErrorView>(final(self)@),
                Err(e) => prepared(old(self)@, *graph) == Err::<ObjectView, ErrorView>(e@)
                    && final(self)@ == old(self)@,
            },
    {
        if self.is_deleted {
            return Err(ActionError::ObjectIsDeleted);
        }
        let model = match graph.model(self.model.as_str()) {
            Some(m) => m,
            None => {
                return Err(ActionError::InternalServerError("Model is not found.".to_owned()));
            },
        };
        let mut staged = entries_copy(&self.values);
        let mut refused: Vec<(String, String)> = Vec::new();
        let ghost whole = save_of_fields(self@, model.fields@, 0, self@.values, Seq::empty());
        let mut i: usize = 0;
        assert(pairs_view(refused@) =~= Seq::empty());
        while i < model.fields.len()
            invariant
                i <= model.fields.len(),
                whole == save_of_fields(
                    self@,
                    model.fields@,
                    i as int,
                    entries_view(staged@),
                    pairs_view(refused@),
                ),
            decreases model.fields.len() - i,
        {
            let field = &model.fields[i];
            let ghost before = pairs_view(refused@);
            match self.save_one(field) {
                Ok(Some(v)) => {
                    put_entry(&mut staged, field.name.to_owned(), v);
                },
                Ok(None) => {},
                Err(reason) => {
                    refused.push((field.name.to_owned(), reason));
                    assert(pairs_view(refused@) =~= before.push((field.name@, reason@)));
                },
            }
            i += 1;
        }
        if refused.len() == 0 {
            self.values = staged;
            Ok(())
        } else {
            Err(ActionError::ValidationError(refused))
        }
    }

    /// The entries that are kept.
    fn kept(&self, model: &Model, sent: bool) -> (r: Vec<(String, Value)>)
        ensures
            entries_view(r@) == kept_entries(model.fields@, self@.values, 0, Seq::empty(), sent),
    {
        let mut out: Vec<(String, Value)> = Vec::new();
        let mut i: usize = 0;
        assert(entries_view(out@) =~= Seq::empty());
        while i < self.values.len()
            invariant
                i <= self.values.len(),
                kept_entries(model.fields@, self@.values, 0, Seq::empty(), sent) == kept_entries(
                    model.fields@,
                    self@.values,
                    i as int,
                    entries_view(out@),
                    sent,
                ),
            decreases self.values.len() - i,
        {
            let name = self.values[i].0.as_str();
            let keep = match model.field(name) {
                Some(f) => match f.store {
                    Store::Temp => false,
                    Store::Calculated => !sent,
                    _ => true,
                },
                None => true,
            };
            let ghost before = entries_view(out@);
            if keep {
                out.push((self.values[i].0.clone(), self.values[i].1.duplicate()));
                assert(entries_view(out@) =~= before.push(self@.values[i as int]));
            }
            i += 1;
        }
        out
    }

    /// The values that go to the connector when the object is saved: those
    /// of the fields that are stored. A value that lives only until the save
    /// and one that is computed on each read are not among them.
    pub fn stored_values(&self, graph: &Graph) -> (r: Vec<(String, Value)>)
        ensures
            entries_view(r@) == sent_values(self@, *graph),
    {
        match graph.model(self.model.as_str()) {
            Some(model) => self.kept(model, true),
            None => entries_copy(&self.values),
        }
    }

    /// The second half of a save: takes the connector's verdict.
    ///
    /// Where the connector stored the object, the values held only until the
    /// save are dropped, what is left counts as stored, and no field counts
    /// as changed. Where it failed, its error is handed on as it came and the
    /// object stays as it was.
    pub fn finish_save(&mut self, graph: &Graph, verdict: Result<(), ActionError>) -> (r: Result<
        (),
        ActionError,
    >)
        ensures
            match verdict {
                Ok(_) => r is Ok && final(self)@ == stored(old(self)@, *graph),
                Err(e) => r == Err::<(), ActionError>(e) && final(self)@ == old(self)@,
            },
    {
        match verdict {
            Ok(_) => {
                let values = match graph.model(self.model.as_str()) {
                    Some(model) => self.kept(model, false),
                    None => entries_copy(&self.values),
                };
                self.previous_values = entries_copy(&values);
                self.values = values;
                self.dirty_fields = Vec::new();
                self.is_new = false;
                self.is_modified = false;
                assert(names_view(self.dirty_fields@) =~= Seq::empty());
                Ok(())
            },
            Err(e) => Err(e),
        }
    }

    /// The first half of a delete: a deleted object cannot be deleted again.
    pub fn begin_delete(&self) -> (r: Result<(), ActionError>)
        ensures
            verdict(r) == (if self.is_deleted {
                Err::<(), ErrorView>(ErrorView::ObjectIsDeleted)
            } else {
                Ok::<(), ErrorView>(())
            }),
    {
        if self.is_deleted {
            Err(ActionError::ObjectIsDeleted)
        } else {
            Ok(())
        }
    }

    /// The second half of a delete: takes the connector's verdict. Where the
    /// connector deleted the object, it counts as deleted from now on; where
    /// it failed, its error is handed on and the object stays as it was.
    pub fn finish_delete(&mut self, verdict: Result<(), ActionError>) -> (r: Result<(), ActionError>)
        ensures
            match verdict {
                Ok(_) => r is Ok && final(self)@ == (ObjectView { is_deleted: true, ..old(self)@ }),
                Err(e) => r == Err::<(), ActionError>(e) && final(self)@ == old(self)@,
            },
    {
        match verdict {
            Ok(_) => {
                self.is_deleted = true;
                Ok(())
            },
            Err(e) => Err(e),
        }
    }

    /// How one field is shown.
    fn show_one(&self, model: &Model, key: &str) -> (r: Result<Option<(String, Json)>, ActionError>)
        ensures
            match r {
                Ok(Some(m)) => output_member(self@, *model, key@) == Ok::<
                    Option<(Seq<char>, JsonView)>,
                    ErrorView,
                >(Some((m.0@, m.1@))),
                Ok(None) => output_member(self@, *model, key@) == Ok::<
                    Option<(Seq<char>, JsonView)>,
                    ErrorView,
                >(None),
                Err(e) => output_member(self@, *model, key@) == Err::<
                    Option<(Seq<char>, JsonView)>,
                    ErrorView,
                >(e@),
            },
    {
        proof {
            names_hold(self.selected_fields@, key@);
        }
        if self.selected_fields.len() != 0 && !contains_name(&self.selected_fields, key) {
            return Ok(None);
        }
        let field = match model.field(key) {
            Some(f) => f,
            None => {
                return Ok(None);
            },
        };
        let held = match get_entry(&self.values, key) {
            Some(v) => v.duplicate(),
            None => Value::Null,
        };
        let place = path_key(&self.env.path, key);
        let ctx = Context {
            object: Some(self),
            key_path: &place,
            stage: Stage::Value(held),
            env: &self.env,
        };
        assert(ctx@ == field_context(self@, key@, held@));
        match field.on_output_pipeline.process(ctx).stage {
            Stage::Invalid(reason) => {
                let mut reasons: Vec<(String, String)> = Vec::new();
                reasons.push((key.to_owned(), reason));
                assert(pairs_view(reasons@) =~= seq![(key@, reason@)]);
                Err(ActionError::ValidationError(reasons))
            },
            Stage::Value(v) | Stage::ConditionTrue(v) | Stage::ConditionFalse(v) => {
                match v.to_json() {
                    Ok(j) => Ok(Some((key.to_owned(), j))),
                    Err(e) => Err(e),
                }
            },
        }
    }

    /// The own members of the object as a response shows them.
    fn show_fields(&self, model: &Model) -> (r: Result<Vec<(String, Json)>, ActionError>)
        ensures
            match r {
                Ok(ms) => output_members(
                    self@,
                    *model,
                    names_view(model.local_output_keys@),
                    0,
                    Seq::empty(),
                ) == Ok::<Seq<(Seq<char>, JsonView)>, ErrorView>(json_members(ms@)),
                Err(e) => output_members(
                    self@,
                    *model,
                    names_view(model.local_output_keys@),
                    0,
                    Seq::empty(),
                ) == Err::<Seq<(Seq<char>, JsonView)>, ErrorView>(e@),
            },
    {
        let keys = model.local_output_keys();
        let ghost whole = output_members(self@, *model, names_view(keys@), 0, Seq::empty());
        let mut out: Vec<(String, Json)> = Vec::new();
        let mut i: usize = 0;
        assert(json_members(out@) =~= Seq::empty());
        while i < keys.len()
            invariant
                i <= keys.len(),
                *keys == model.local_output_keys,
                whole == output_members(self@, *model, names_view(keys@), 0, Seq::empty()),
                whole == output_members(
                    self@,
                    *model,
                    names_view(keys@),
                    i as int,
                    json_members(out@),
                ),
            decreases keys.len() - i,
        {
            let ghost before = json_members(out@);
            assert(names_view(keys@)[i as int] == keys@[i as int]@);
            match self.show_one(model, keys[i].as_str()) {
                Ok(Some(m)) => {
                    out.push(m);
                    assert(json_members(out@) =~= before.push((m.0@, m.1@)));
                },
                Ok(None) => {},
                Err(e) => {
                    return Err(e);
                },
            }
            i += 1;
        }
        Ok(out)
    }

    /// Objects as a response shows them.
    fn show_list(objects: &Vec<Object>, graph: &Graph) -> (r: Result<Vec<Json>, ActionError>)
        ensures
            match r {
                Ok(js) => shown_list(objects_view(objects@), *graph, 0, Seq::empty()) == Ok::<
                    Seq<JsonView>,
                    ErrorView,
                >(json_items(js@)),
                Err(e) => shown_list(objects_view(objects@), *graph, 0, Seq::empty()) == Err::<
                    Seq<JsonView>,
                    ErrorView,
                >(e@),
            },
        decreases objects@, objects@.len(),
    {
        let ghost whole = shown_list(objects_view(objects@), *graph, 0, Seq::empty());
        let mut out: Vec<Json> = Vec::new();
        let mut i: usize = 0;
        assert(json_items(out@) =~= Seq::empty());
        while i < objects.len()
            invariant
                i <= objects.len(),
                whole == shown_list(objects_view(objects@), *graph, 0, Seq::empty()),
                whole == shown_list(objects_view(objects@), *graph, i as int, json_items(out@)),
            decreases objects.len() - i,
        {
            let ghost before = json_items(out@);
            assert(objects_view(objects@)[i as int] == objects@[i as int]@);
            match objects[i].to_json(graph) {
                Ok(j) => {
                    out.push(j);
                    assert(json_items(out@) =~= before.push(j@));
                },
                Err(e) => {
                    return Err(e);
                },
            }
            i += 1;
        }
        Ok(out)
    }

    /// Writes the object as a response shows it.
    pub fn to_json(&self, graph: &Graph) -> (r: Result<Json, ActionError>)
        ensures
            match r {
                Ok(j) => shown(self@, *graph) == Ok::<JsonView, ErrorView>(j@),
                Err(e) => shown(self@, *graph) == Err::<JsonView, ErrorView>(e@),
            },
        decreases self,
    {
        let model = match graph.model(self.model.as_str()) {
            Some(m) => m,
            None => {
                return Err(ActionError::InternalServerError("Model is not found.".to_owned()));
            },
        };
        let mut out = match self.show_fields(model) {
            Ok(ms) => ms,
            Err(e) => {
                return Err(e);
            },
        };
        let relations = &self.included_relations;
        let ghost whole = related_members(
            relations_view(relations@),
            *graph,
            *model,
            0,
            json_members(out@),
        );
        let mut i: usize = 0;
        while i < relations.len()
            invariant
                i <= relations.len(),
                *relations == self.included_relations,
                graph.spec_model(self.model@) == Some(*model),
                output_members(
                    self@,
                    *model,
                    names_view(model.local_output_keys@),
                    0,
                    Seq::empty(),
                ) matches Ok(ms) && whole == related_members(
                    relations_view(relations@),
                    *graph,
                    *model,
                    0,
                    ms,
                ),
                whole == related_members(
                    relations_view(relations@),
                    *graph,
                    *model,
                    i as int,
                    json_members(out@),
                ),
            decreases relations.len() - i,
        {
            let ghost before = json_members(out@);
            let name = relations[i].0.as_str();
            assert(relations_view(relations@)[i as int] == (
                relations@[i as int].0@,
                objects_view(relations@[i as int].1@),
            ));
            if contains_name(model.relation_output_keys(), name) {
                match Self::show_list(&relations[i].1, graph) {
                    Ok(js) => {
                        out.push((name.to_owned(), Json::Array(js)));
                        assert(json_members(out@) =~= before.push(
                            (name@, JsonView::Array(json_items(js@))),
                        ));
                    },
                    Err(e) => {
                        return Err(e);
                    },
                }
            }
            i += 1;
        }
        Ok(Json::Object(out))
    }
}

/// A field that requests cannot write takes no value: setting it is refused
/// with a denial, whatever the value and the state of the object, unless the
/// object is deleted.
pub proof fn no_write_is_denied(object: ObjectView, graph: Graph, key: Seq<char>, value: ValueView)
    requires
        !object.is_deleted,
        graph.spec_model(object.model) is Some,
        graph.spec_model(object.model).unwrap().spec_field(key) is Some,
        graph.spec_model(object.model).unwrap().spec_field(key).unwrap().write_rule
            == WriteRule::NoWrite,
    ensures
        set_outcome(object, graph, key, value) matches Err(ErrorView::PermissionDenied(_, _)),
{
}

/// A field that is written once takes no value after a value other than
/// `Null` was stored for it.
pub proof fn write_once_is_denied_after_a_stored_value(
    object: ObjectView,
    graph: Graph,
    key: Seq<char>,
    value: ValueView,
)
    requires
        !object.is_deleted,
        graph.spec_model(object.model) is Some,
        graph.spec_model(object.model).unwrap().spec_field(key) matches Some(field)
            && field.write_rule == WriteRule::WriteOnce && (lookup(
            object.previous_values,
            field.name@,
        ) matches Some(saved) && !(saved is Null)),
    ensures
        set_outcome(object, graph, key, value) matches Err(ErrorView::PermissionDenied(_, _)),
{
}

/// A field that is written on create takes no value once the object is no
/// longer new.
pub proof fn write_on_create_is_denied_once_stored(
    object: ObjectView,
    graph: Graph,
    key: Seq<char>,
    value: ValueView,
)
    requires
        !object.is_deleted,
        !object.is_new,
        graph.spec_model(object.model) is Some,
        graph.spec_model(object.model).unwrap().spec_field(key) matches Some(field)
            && field.write_rule == WriteRule::WriteOnCreate,
    ensures
        set_outcome(object, graph, key, value) matches Err(ErrorView::PermissionDenied(_, _)),
{
}

/// A list of names holds a name exactly when its view does.
pub proof fn names_hold(names: Seq<String>, name: Seq<char>)
    ensures
        has_name(names, name) == names_view(names).contains(name),
{
    if has_name(names, name) {
        let i = choose|i: int| 0 <= i < names.len() && (#[trigger] names[i])@ == name;
        assert(names_view(names)[i] == name);
    }
    if names_view(names).contains(name) {
        let i = choose|i: int| 0 <= i < names_view(names).len() && names_view(names)[i] == name;
        assert(names[i]@ == name);
    }
}

/// A successful save leaves the stored values equal to the values, and no
/// field changed.
pub proof fn save_settles_the_object(object: ObjectView, graph: Graph)
    ensures
        stored(object, graph).previous_values == stored(object, graph).values,
        stored(object, graph).dirty_fields.len() == 0,
        !stored(object, graph).is_new,
{
}

/// A save that is refused before the connector is asked leaves the object,
/// and so its stored values, as they were; one that succeeds that far does
/// not touch the stored values either.
pub proof fn begin_save_keeps_stored_values(object: ObjectView, graph: Graph)
    ensures
        prepared(object, graph) matches Ok(ready) ==> ready.previous_values
            == object.previous_values,
{
}

/// Every entry that is kept is one that was kept before or one whose field
/// is kept.
proof fn kept_entries_are_kept(
    fields: Seq<Field>,
    entries: Seq<(Seq<char>, ValueView)>,
    from: int,
    kept: Seq<(Seq<char>, ValueView)>,
    sent: bool,
)
    requires
        0 <= from,
        forall|i: int| 0 <= i < kept.len() ==> is_kept(fields, (#[trigger] kept[i]).0, sent),
    ensures
        forall|i: int|
            0 <= i < kept_entries(fields, entries, from, kept, sent).len() ==> is_kept(
                fields,
                (#[trigger] kept_entries(fields, entries, from, kept, sent)[i]).0,
                sent,
            ),
    decreases entries.len() - from,
{
    let all = kept_entries(fields, entries, from, kept, sent);
    if from < entries.len() {
        if is_kept(fields, entries[from].0, sent) {
            let more = kept.push(entries[from]);
            assert forall|i: int| 0 <= i < more.len() implies is_kept(
                fields,
                (#[trigger] more[i]).0,
                sent,
            ) by {
                if i < kept.len() {
                    assert(more[i] == kept[i]);
                }
            }
            kept_entries_are_kept(fields, entries, from + 1, more, sent);
            assert(all == kept_entries(fields, entries, from + 1, more, sent));
        } else {
            kept_entries_are_kept(fields, entries, from + 1, kept, sent);
            assert(all == kept_entries(fields, entries, from + 1, kept, sent));
        }
    } else {
        assert(all == kept);
    }
    assert forall|i: int| 0 <= i < all.len() implies is_kept(fields, (#[trigger] all[i]).0, sent) by {
    }
}

/// The value of a field that is computed on each read, or held only until a
/// save, never goes to the connector.
pub proof fn computed_values_are_not_sent(object: ObjectView, graph: Graph, at: int)
    requires
        graph.spec_model(object.model) is Some,
        0 <= at < sent_values(object, graph).len(),
    ensures
        first_field(
            graph.spec_model(object.model).unwrap().fields@,
            sent_values(object, graph)[at].0,
            0,
        ) matches Some(field) ==> !(field.store is Calculated) && !(field.store is Temp),
{
    let model = graph.spec_model(object.model).unwrap();
    kept_entries_are_kept(model.fields@, object.values, 0, Seq::empty(), true);
}

/// After a save no value is left that was held only until then.
pub proof fn temporary_values_do_not_outlive_a_save(object: ObjectView, graph: Graph, at: int)
    requires
        graph.spec_model(object.model) is Some,
        0 <= at < stored(object, graph).values.len(),
    ensures
        first_field(
            graph.spec_model(object.model).unwrap().fields@,
            stored(object, graph).values[at].0,
            0,
        ) matches Some(field) ==> !(field.store is Temp),
{
    let model = graph.spec_model(object.model).unwrap();
    kept_entries_are_kept(model.fields@, object.values, 0, Seq::empty(), false);
}

} // verus!
