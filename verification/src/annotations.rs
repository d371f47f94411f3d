//! Display metadata of nodes and of enumeration values.

use crate::object_types::ObjectType;
use vstd::prelude::*;

verus! {

/// The closed set of rendering hints.
#[derive(Clone, Copy, Debug, PartialEq, Eq)]
pub enum Widget {
    Default,
    Textarea,
    Dropdown,
}

/// The display metadata of a node.
#[derive(Clone, Debug, PartialEq, Eq)]
pub struct Annotations {
    pub title: Option<String>,
    pub help: Option<String>,
    pub warning: Option<String>,
    pub description: Option<String>,
    pub widget: Option<Widget>,
}

/// The mathematical value of [`Annotations`].
pub struct AnnotationsModel {
    pub title: Option<Seq<char>>,
    pub help: Option<Seq<char>>,
    pub warning: Option<Seq<char>>,
    pub description: Option<Seq<char>>,
    pub widget: Option<Widget>,
}

/// The display metadata of an enumeration value.
#[derive(Clone, Debug, PartialEq, Eq)]
pub struct DisplayInformation {
    pub title: Option<String>,
    pub help: Option<String>,
    pub warning: Option<String>,
    pub description: Option<String>,
}

/// The mathematical value of [`DisplayInformation`].
pub struct DisplayInformationModel {
    pub title: Option<Seq<char>>,
    pub help: Option<Seq<char>>,
    pub warning: Option<Seq<char>>,
    pub description: Option<Seq<char>>,
}

/// The characters of an optional string.
pub open spec fn text_view(text: Option<String>) -> Option<Seq<char>> {
    match text {
        Some(s) => Some(s@),
        None => None,
    }
}

impl View for Annotations {
    type V = AnnotationsModel;

    open spec fn view(&self) -> AnnotationsModel {
        AnnotationsModel {
            title: text_view(self.title),
            help: text_view(self.help),
            warning: text_view(self.warning),
            description: text_view(self.description),
            widget: self.widget,
        }
    }
}

impl View for DisplayInformation {
    type V = DisplayInformationModel;

    open spec fn view(&self) -> DisplayInformationModel {
        DisplayInformationModel {
            title: text_view(self.title),
            help: text_view(self.help),
            warning: text_view(self.warning),
            description: text_view(self.description),
        }
    }
}

impl AnnotationsModel {
    /// Metadata without any entry.
    pub open spec fn empty() -> AnnotationsModel {
        AnnotationsModel { title: None, help: None, warning: None, description: None, widget: None }
    }

    /// The widget that a node of the given type is rendered with: a text node
    /// always with the text area, whatever was asked for; any other node with
    /// what was asked for.
    pub open spec fn widget_for(self, object_type: ObjectType) -> Option<Widget> {
        if object_type.inner_raw() is Text {
            Some(Widget::Textarea)
        } else {
            self.widget
        }
    }

    /// The metadata with the widget that the type forces.
    pub open spec fn with_type(self, object_type: ObjectType) -> AnnotationsModel {
        AnnotationsModel { widget: self.widget_for(object_type), ..self }
    }
}

impl Annotations {
    /// Metadata without any entry.
    pub fn empty() -> (r: Annotations)
        ensures
            r@ == AnnotationsModel::empty(),
    {
        Annotations { title: None, help: None, warning: None, description: None, widget: None }
    }
}

/// Applies the rule by which a type decides the widget: a node whose kind is
/// text gets the text area, and an explicit choice is dropped; every other
/// node keeps its metadata as it is.
pub fn annotations_from_type(old_annotations: Annotations, type_information: &ObjectType) -> (r:
    Annotations)
    ensures
        r@ == old_annotations@.with_type(*type_information),
{
    let mut widget = old_annotations.widget;
    if let crate::object_types::RawObjectType::Text(_) = type_information.inner_raw() {
        widget = Some(Widget::Textarea)
    }
    Annotations {
        title: old_annotations.title,
        help: old_annotations.help,
        warning: old_annotations.warning,
        description: old_annotations.description,
        widget,
    }
}

} // verus!
