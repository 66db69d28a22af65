use vstd::prelude::*;
use crate::attribute::Attribute;
use crate::attribute::AttributeView;
use crate::exception_table::ExceptionTable;
use crate::exception_table::ExceptionTableEntryView;
use crate::line_number_table::LineNumberTable;
use crate::line_number_table::LineNumberTableEntry;
use crate::method_descriptor::MethodDescriptor;
use crate::method_descriptor::MethodDescriptorView;
use crate::method_flags::MethodFlags;

verus! {

/// The mathematical shape of a method's code block.
#[verifier::ext_equal]
pub ghost struct ClassFileMethodCodeView {
    pub max_stack: u16,
    pub max_locals: u16,
    pub code: Seq<u8>,
    pub exception_table: Seq<ExceptionTableEntryView>,
    pub line_number_table: Option<Seq<LineNumberTableEntry>>,
    pub attributes: Seq<AttributeView>,
}

/// The code block of a method: operand-stack and local-variable sizes, the
/// raw instruction bytes, the exception table, the optional line-number
/// table, and the remaining raw attributes.
#[derive(Debug, PartialEq)]
pub struct ClassFileMethodCode {
    pub max_stack: u16,
    pub max_locals: u16,
    pub code: Vec<u8>,
    pub exception_table: ExceptionTable,
    pub line_number_table: Option<LineNumberTable>,
    pub attributes: Vec<Attribute>,
}

impl View for ClassFileMethodCode {
    type V = ClassFileMethodCodeView;

    open spec fn view(&self) -> ClassFileMethodCodeView {
        ClassFileMethodCodeView {
            max_stack: self.max_stack,
            max_locals: self.max_locals,
            code: self.code@,
            exception_table: self.exception_table@,
            line_number_table: self.line_number_table.deep_view(),
            attributes: self.attributes.deep_view(),
        }
    }
}

impl DeepView for ClassFileMethodCode {
    type V = ClassFileMethodCodeView;

    open spec fn deep_view(&self) -> ClassFileMethodCodeView {
        self.view()
    }
}

/// The mathematical shape of a method.
#[verifier::ext_equal]
pub ghost struct ClassFileMethodView {
    pub flags: MethodFlags,
    pub name: Seq<char>,
    pub type_descriptor: Seq<char>,
    pub parsed_type_descriptor: MethodDescriptorView,
    pub attributes: Seq<AttributeView>,
    pub code: Option<ClassFileMethodCodeView>,
    pub deprecated: bool,
    pub thrown_exceptions: Seq<Seq<char>>,
}

/// A method of a class: its access flags, name, raw and parsed descriptor,
/// raw attributes, optional code block (absent exactly for native and
/// abstract methods), deprecation mark, and thrown exception class names.
#[derive(Debug, PartialEq)]
pub struct ClassFileMethod {
    pub flags: MethodFlags,
    pub name: String,
    pub type_descriptor: String,
    pub parsed_type_descriptor: MethodDescriptor,
    pub attributes: Vec<Attribute>,
    pub code: Option<ClassFileMethodCode>,
    pub deprecated: bool,
    pub thrown_exceptions: Vec<String>,
}

impl View for ClassFileMethod {
    type V = ClassFileMethodView;

    open spec fn view(&self) -> ClassFileMethodView {
        ClassFileMethodView {
            flags: self.flags,
            name: self.name@,
            type_descriptor: self.type_descriptor@,
            parsed_type_descriptor: self.parsed_type_descriptor@,
            attributes: self.attributes.deep_view(),
            code: self.code.deep_view(),
            deprecated: self.deprecated,
            thrown_exceptions: self.thrown_exceptions.deep_view(),
        }
    }
}

impl DeepView for ClassFileMethod {
    type V = ClassFileMethodView;

    open spec fn deep_view(&self) -> ClassFileMethodView {
        self.view()
    }
}

} // verus!
