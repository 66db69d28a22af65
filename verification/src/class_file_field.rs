use vstd::prelude::*;
use crate::field_flags::FieldFlags;
use crate::field_type::FieldType;
use crate::field_type::FieldTypeView;

verus! {

/// The mathematical shape of a field's constant value.
#[verifier::ext_equal]
pub ghost enum FieldConstantValueView {
    Int(i32),
    Float(u32),
    Long(i64),
    Double(u64),
    String(Seq<char>),
}

/// The constant value of a field, resolved from the constant pool.
/// Floating-point constants are kept as their raw IEEE-754 bit patterns.
#[derive(Debug, PartialEq)]
pub enum FieldConstantValue {
    Int(i32),
    /// The bits of a 32-bit IEEE-754 floating-point constant.
    Float(u32),
    Long(i64),
    /// The bits of a 64-bit IEEE-754 floating-point constant.
    Double(u64),
    String(String),
}

impl View for FieldConstantValue {
    type V = FieldConstantValueView;

    open spec fn view(&self) -> FieldConstantValueView {
        match self {
            FieldConstantValue::Int(v) => FieldConstantValueView::Int(*v),
            FieldConstantValue::Float(v) => FieldConstantValueView::Float(*v),
            FieldConstantValue::Long(v) => FieldConstantValueView::Long(*v),
            FieldConstantValue::Double(v) => FieldConstantValueView::Double(*v),
            FieldConstantValue::String(s) => FieldConstantValueView::String(s@),
        }
    }
}

impl DeepView for FieldConstantValue {
    type V = FieldConstantValueView;

    open spec fn deep_view(&self) -> FieldConstantValueView {
        self.view()
    }
}

/// The mathematical shape of a field.
#[verifier::ext_equal]
pub ghost struct ClassFileFieldView {
    pub flags: FieldFlags,
    pub name: Seq<char>,
    pub type_descriptor: FieldTypeView,
    pub constant_value: Option<FieldConstantValueView>,
    pub deprecated: bool,
}

/// A field of a class: its access flags, name, parsed type, optional
/// constant value, and deprecation mark.
#[derive(Debug, PartialEq)]
pub struct ClassFileField {
    pub flags: FieldFlags,
    pub name: String,
    pub type_descriptor: FieldType,
    pub constant_value: Option<FieldConstantValue>,
    pub deprecated: bool,
}

impl View for ClassFileField {
    type V = ClassFileFieldView;

    open spec fn view(&self) -> ClassFileFieldView {
        ClassFileFieldView {
            flags: self.flags,
            name: self.name@,
            type_descriptor: self.type_descriptor@,
            constant_value: self.constant_value.deep_view(),
            deprecated: self.deprecated,
        }
    }
}

impl DeepView for ClassFileField {
    type V = ClassFileFieldView;

    open spec fn deep_view(&self) -> ClassFileFieldView {
        self.view()
    }
}

} // verus!
