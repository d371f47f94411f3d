//! Enumerations: the allowed values of a property.

use crate::annotations::{text_view, DisplayInformation, DisplayInformationModel};
use crate::object_types::{ObjectType, RawObjectType};
use vstd::prelude::*;

verus! {

/// The values that a property may take.
#[derive(Clone, Debug, PartialEq, Eq)]
pub struct EnumerationValues {
    pub possible_values: Vec<EnumerationValue>,
}

/// One allowed value of a property, with its type and its display metadata.
#[derive(Clone, Debug, PartialEq, Eq)]
pub struct EnumerationValue {
    pub type_spec: ObjectType,
    pub display_information: DisplayInformation,
    pub value: Option<String>,
}

/// The mathematical value of an [`EnumerationValue`].
pub struct EnumerationValueModel {
    pub type_spec: ObjectType,
    pub display_information: DisplayInformationModel,
    pub value: Option<Seq<char>>,
}

impl View for EnumerationValue {
    type V = EnumerationValueModel;

    open spec fn view(&self) -> EnumerationValueModel {
        EnumerationValueModel {
            type_spec: self.type_spec,
            display_information: self.display_information@,
            value: text_view(self.value),
        }
    }
}

impl View for EnumerationValues {
    type V = Seq<EnumerationValueModel>;

    open spec fn view(&self) -> Seq<EnumerationValueModel> {
        EnumerationValues::view_values(self.possible_values@)
    }
}

impl EnumerationValues {
    /// The values of a list of enumeration values, one by one.
    pub open spec fn view_values(values: Seq<EnumerationValue>) -> Seq<EnumerationValueModel> {
        Seq::new(values.len(), |i: int| values[i]@)
    }
}

impl EnumerationValueModel {
    /// The value that a bare literal stands for: the literal is both its title
    /// and its value, and its type is a required string.
    pub open spec fn from_literal(literal: Seq<char>) -> EnumerationValueModel {
        EnumerationValueModel {
            type_spec: ObjectType::Required(RawObjectType::String(None)),
            display_information: DisplayInformationModel {
                title: Some(literal),
                help: None,
                warning: None,
                description: None,
            },
            value: Some(literal),
        }
    }
}

impl EnumerationValue {
    /// Makes the value that a bare literal stands for.
    pub fn from_literal(value: &str) -> (r: EnumerationValue)
        ensures
            r@ == EnumerationValueModel::from_literal(value@),
    {
        let title = value.to_owned();
        let display_information = DisplayInformation {
            title: Some(title.clone()),
            help: None,
            warning: None,
            description: None,
        };
        EnumerationValue {
            display_information,
            value: Some(title),
            type_spec: ObjectType::Required(RawObjectType::String(None)),
        }
    }
}

impl vstd::std_specs::convert::FromSpecImpl<&str> for EnumerationValue {
    /// The conversion is stated over views, by the `ensures` of `from`.
    open spec fn obeys_from_spec() -> bool {
        false
    }

    open spec fn from_spec(value: &str) -> EnumerationValue {
        arbitrary()
    }
}

impl From<&str> for EnumerationValue {
    fn from(value: &str) -> (r: EnumerationValue)
        ensures
            r@ == EnumerationValueModel::from_literal(value@),
    {
        EnumerationValue::from_literal(value)
    }
}

} // verus!
