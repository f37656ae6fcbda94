//! Field descriptors, the form schema, and the schema builder.
//!
//! A field descriptor binds one model attribute to a form control: its
//! wire name, display label, raw-value parse mode, validation rules and
//! layout styles. The builder accumulates descriptors and structural
//! elements in order into an immutable schema; descriptor mismatches are
//! ruled out at construction time by the builder's preconditions.

use vstd::prelude::*;

use crate::model::Attr;
use crate::model::attr_is_numeric;
use crate::validation::Rule;

verus! {

/// The control a descriptor renders as.
#[derive(Clone, Copy, PartialEq, Eq, Structural, Debug)]
pub enum FieldKind {
    TextInput,
    Stepper,
    Select,
    Button,
    Heading,
    Submit,
}

/// Whether descriptors of this kind carry model data (as opposed to
/// structural elements).
pub open spec fn is_data_kind(k: FieldKind) -> bool {
    k is TextInput || k is Stepper || k is Select
}

/// How raw input is converted before it is written to the model: either
/// verbatim, or with leading and trailing whitespace removed first.
#[derive(Clone, Copy, PartialEq, Eq, Structural, Debug)]
pub enum ParseMode {
    Verbatim,
    Trimmed,
}

/// A purely advisory layout hint for the rendering backend; never affects
/// validation or data flow.
#[derive(Clone, PartialEq, Eq, Debug)]
pub enum StyleAttr {
    /// Horizontal size on a twelve-column grid.
    Width(u32),
    /// Text shown when hovering over the control.
    Tooltip(String),
}

/// The action a button triggers. Buttons never validate or submit.
#[derive(Clone, Copy, PartialEq, Eq, Structural, Debug)]
pub enum ButtonAction {
    /// Replace the model with its default value.
    ResetToDefault,
}

/// One choice of a select control: the displayed label and the raw value
/// written to the model when chosen.
#[derive(Clone, PartialEq, Eq, Debug)]
pub struct SelectOption {
    pub label: String,
    pub value: String,
}

/// Binds one model attribute to a form control, or describes a structural
/// element (heading, button, submit control).
#[derive(Clone, Debug)]
pub struct FieldDescriptor {
    /// The wire key of a data-bearing field; empty for structural kinds.
    pub name: String,
    /// The display label (also the heading title or button text).
    pub label: String,
    pub kind: FieldKind,
    /// The attribute the getter reads.
    pub getter: Option<Attr>,
    /// The attribute the setter writes; a well-formed descriptor reads
    /// and writes the same attribute.
    pub setter: Option<Attr>,
    pub parse: ParseMode,
    /// Validation rules in attachment order (first failure reported).
    pub rules: Vec<Rule>,
    pub styles: Vec<StyleAttr>,
    /// The choices of a select control.
    pub options: Vec<SelectOption>,
    pub action: Option<ButtonAction>,
}

impl FieldDescriptor {
    /// A data-bearing descriptor is well formed when its wire name is
    /// non-empty, its getter and setter bind the same attribute, and its
    /// kind matches the attribute's raw type (steppers are the numeric
    /// controls).
    pub open spec fn wf(self) -> bool {
        is_data_kind(self.kind) ==> {
            &&& self.name@.len() > 0
            &&& self.getter is Some
            &&& self.setter == self.getter
            &&& (attr_is_numeric(self.getter->0) <==> self.kind is Stepper)
        }
    }

    /// A fresh descriptor of the given kind with nothing configured.
    fn empty(kind: FieldKind) -> (r: Self)
        ensures
            r.kind == kind,
            r.name@ == Seq::<char>::empty(),
            r.label@ == Seq::<char>::empty(),
            r.getter is None,
            r.setter is None,
            r.parse is Verbatim,
            r.rules@ == Seq::<Rule>::empty(),
            r.styles@ == Seq::<StyleAttr>::empty(),
            r.options@ == Seq::<SelectOption>::empty(),
            r.action is None,
    {
        FieldDescriptor {
            name: String::new(),
            label: String::new(),
            kind,
            getter: None,
            setter: None,
            parse: ParseMode::Verbatim,
            rules: Vec::new(),
            styles: Vec::new(),
            options: Vec::new(),
            action: None,
        }
    }

    /// Whether nothing is configured yet besides the kind.
    pub open spec fn is_fresh(self, kind: FieldKind) -> bool {
        &&& self.kind == kind
        &&& self.name@ == Seq::<char>::empty()
        &&& self.label@ == Seq::<char>::empty()
        &&& self.getter is None
        &&& self.setter is None
        &&& self.parse is Verbatim
        &&& self.rules@ == Seq::<Rule>::empty()
        &&& self.styles@ == Seq::<StyleAttr>::empty()
        &&& self.options@ == Seq::<SelectOption>::empty()
        &&& self.action is None
    }

    /// Starts a text input descriptor.
    pub fn text_input() -> (r: Self)
        ensures
            r.is_fresh(FieldKind::TextInput),
    {
        Self::empty(FieldKind::TextInput)
    }

    /// Starts a stepper (numeric input) descriptor.
    pub fn stepper() -> (r: Self)
        ensures
            r.is_fresh(FieldKind::Stepper),
    {
        Self::empty(FieldKind::Stepper)
    }

    /// Starts a select descriptor.
    pub fn select() -> (r: Self)
        ensures
            r.is_fresh(FieldKind::Select),
    {
        Self::empty(FieldKind::Select)
    }

    /// Sets the wire name.
    pub fn named(self, n: &str) -> (r: Self)
        ensures
            r == (FieldDescriptor { name: r.name, ..self }),
            r.name@ == n@,
    {
        FieldDescriptor { name: String::from_str(n), ..self }
    }

    /// Sets the display label.
    pub fn labeled(self, l: &str) -> (r: Self)
        ensures
            r == (FieldDescriptor { label: r.label, ..self }),
            r.label@ == l@,
    {
        FieldDescriptor { label: String::from_str(l), ..self }
    }

    /// Binds the attribute the field's getter reads.
    pub fn getter(self, a: Attr) -> (r: Self)
        ensures
            r == (FieldDescriptor { getter: Some(a), ..self }),
    {
        FieldDescriptor { getter: Some(a), ..self }
    }

    /// Binds the attribute the field's setter writes.
    pub fn setter(self, a: Attr) -> (r: Self)
        ensures
            r == (FieldDescriptor { setter: Some(a), ..self }),
    {
        FieldDescriptor { setter: Some(a), ..self }
    }

    /// Raw input is trimmed before parsing and assignment.
    pub fn parse_trimmed(self) -> (r: Self)
        ensures
            r == (FieldDescriptor { parse: ParseMode::Trimmed, ..self }),
    {
        FieldDescriptor { parse: ParseMode::Trimmed, ..self }
    }

    /// Raw input is taken verbatim.
    pub fn parse_from(self) -> (r: Self)
        ensures
            r == (FieldDescriptor { parse: ParseMode::Verbatim, ..self }),
    {
        FieldDescriptor { parse: ParseMode::Verbatim, ..self }
    }

    /// Attaches the field's validator: rules evaluated in order, first
    /// failure reported.
    pub fn validation(self, rules: Vec<Rule>) -> (r: Self)
        ensures
            r == (FieldDescriptor { rules: r.rules, ..self }),
            r.rules@ == rules@,
    {
        FieldDescriptor { rules, ..self }
    }

    /// Appends a layout style hint.
    pub fn style(self, s: StyleAttr) -> (r: Self)
        ensures
            r == (FieldDescriptor { styles: r.styles, ..self }),
            r.styles@ == self.styles@.push(s),
    {
        let mut styles = self.styles;
        styles.push(s);
        FieldDescriptor { styles, ..self }
    }

    /// Sets the choices of a select control.
    pub fn with_options_valued(self, options: Vec<SelectOption>) -> (r: Self)
        ensures
            r == (FieldDescriptor { options: r.options, ..self }),
            r.options@ == options@,
    {
        FieldDescriptor { options, ..self }
    }

    /// Prepends a blank sentinel choice to a select control.
    pub fn with_blank_option(self) -> (r: Self)
        ensures
            r == (FieldDescriptor { options: r.options, ..self }),
            r.options@.len() == self.options@.len() + 1,
            r.options@[0].label@ == Seq::<char>::empty(),
            r.options@[0].value@ == Seq::<char>::empty(),
            r.options@.subrange(1, r.options@.len() as int) == self.options@,
    {
        let mut options = self.options;
        options.insert(0, SelectOption { label: String::new(), value: String::new() });
        proof {
            assert(options@.subrange(1, options@.len() as int) =~= self.options@);
        }
        FieldDescriptor { options, ..self }
    }
}

/// No two data-bearing descriptors share a wire name.
pub open spec fn unique_names(fields: Seq<FieldDescriptor>) -> bool {
    forall|i: int, j: int|
        0 <= i < j < fields.len() && is_data_kind(fields[i].kind) && is_data_kind(fields[j].kind)
            ==> fields[i].name@ != fields[j].name@
}

/// The immutable, ordered set of field descriptors and structural
/// elements for one model type. Built once, then shared read-only.
#[derive(Clone, Debug)]
pub struct FormSchema {
    pub fields: Vec<FieldDescriptor>,
}

impl FormSchema {
    /// Every descriptor is well formed and wire names are unique.
    pub open spec fn wf(self) -> bool {
        &&& forall|i: int| 0 <= i < self.fields@.len() ==> self.fields@[i].wf()
        &&& unique_names(self.fields@)
    }
}

/// Accumulates descriptors and structural elements, in call order, into a
/// form schema. Emits no side effects; the schema is the sole artifact.
pub struct FormBuilder {
    pub fields: Vec<FieldDescriptor>,
}

impl FormBuilder {
    /// Whether a data-bearing descriptor with this wire name may still be
    /// added.
    pub open spec fn name_fresh(self, n: Seq<char>) -> bool {
        forall|i: int|
            0 <= i < self.fields@.len() && is_data_kind(self.fields@[i].kind)
                ==> self.fields@[i].name@ != n
    }

    /// Every descriptor added so far is well formed with a unique name.
    pub open spec fn wf(self) -> bool {
        &&& forall|i: int| 0 <= i < self.fields@.len() ==> self.fields@[i].wf()
        &&& unique_names(self.fields@)
    }

    /// Starts an empty builder.
    pub fn new() -> (r: Self)
        ensures
            r.fields@ == Seq::<FieldDescriptor>::empty(),
            r.wf(),
    {
        FormBuilder { fields: Vec::new() }
    }

    /// Appends a heading element.
    pub fn heading(self, title: &str) -> (r: Self)
        ensures
            r.fields@.drop_last() == self.fields@,
            r.fields@.len() == self.fields@.len() + 1,
            r.fields@.last().kind is Heading,
            r.fields@.last().label@ == title@,
            self.wf() ==> r.wf(),
    {
        let d = FieldDescriptor::empty(FieldKind::Heading).labeled(title);
        self.push_elem(d)
    }

    /// Appends a data-bearing field descriptor (text input, stepper or
    /// select). The descriptor must be well formed and its wire name not
    /// yet taken.
    pub fn field(self, d: FieldDescriptor) -> (r: Self)
        requires
            is_data_kind(d.kind),
            d.wf(),
            self.name_fresh(d.name@),
        ensures
            r.fields@.drop_last() == self.fields@,
            r.fields@ == self.fields@.push(d),
            self.wf() ==> r.wf(),
    {
        self.push_elem(d)
    }

    /// Appends a button with the given text and action.
    pub fn button(self, text: &str, action: ButtonAction) -> (r: Self)
        ensures
            r.fields@.drop_last() == self.fields@,
            r.fields@.len() == self.fields@.len() + 1,
            r.fields@.last().kind is Button,
            r.fields@.last().label@ == text@,
            r.fields@.last().action == Some(action),
            self.wf() ==> r.wf(),
    {
        let mut d = FieldDescriptor::empty(FieldKind::Button).labeled(text);
        d.action = Some(action);
        self.push_elem(d)
    }

    /// Appends the submit control with the given text.
    pub fn submit(self, text: &str) -> (r: Self)
        ensures
            r.fields@.drop_last() == self.fields@,
            r.fields@.len() == self.fields@.len() + 1,
            r.fields@.last().kind is Submit,
            r.fields@.last().label@ == text@,
            self.wf() ==> r.wf(),
    {
        let d = FieldDescriptor::empty(FieldKind::Submit).labeled(text);
        self.push_elem(d)
    }

    fn push_elem(self, d: FieldDescriptor) -> (r: Self)
        requires
            is_data_kind(d.kind) ==> d.wf() && self.name_fresh(d.name@),
        ensures
            r.fields@ == self.fields@.push(d),
            r.fields@.drop_last() == self.fields@,
            self.wf() ==> r.wf(),
    {
        let mut fields = self.fields;
        fields.push(d);
        proof {
            assert(fields@.drop_last() =~= self.fields@);
            assert(!is_data_kind(d.kind) ==> d.wf());
        }
        FormBuilder { fields }
    }

    /// Finishes construction: the accumulated elements, in call order,
    /// as an immutable schema.
    pub fn build(self) -> (r: FormSchema)
        ensures
            r.fields@ == self.fields@,
            self.wf() ==> r.wf(),
    {
        FormSchema { fields: self.fields }
    }
}

} // verus!
