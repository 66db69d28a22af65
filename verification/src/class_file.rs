use vstd::prelude::*;
use crate::class_access_flags::ClassAccessFlags;
use crate::class_file_field::ClassFileField;
use crate::class_file_field::ClassFileFieldView;
use crate::class_file_method::ClassFileMethod;
use crate::class_file_method::ClassFileMethodView;
use crate::class_file_version::ClassFileVersion;
use crate::constant_pool::ConstantPool;
use crate::constant_pool::PhysicalEntryView;

verus! {

/// The mathematical shape of a decoded class file.
#[verifier::ext_equal]
pub ghost struct ClassFileView {
    pub version: ClassFileVersion,
    pub constants: Seq<PhysicalEntryView>,
    pub flags: ClassAccessFlags,
    pub name: Seq<char>,
    pub superclass: Option<Seq<char>>,
    pub interfaces: Seq<Seq<char>>,
    pub fields: Seq<ClassFileFieldView>,
    pub methods: Seq<ClassFileMethodView>,
    pub deprecated: bool,
    pub source_file: Option<Seq<char>>,
}

/// The content of a decoded class file: version, constant pool, access
/// flags, binary name, optional superclass, interfaces, fields, methods,
/// deprecation mark, and optional source-file name. Every nested entity is
/// exclusively owned by this structure.
#[derive(Debug)]
pub struct ClassFile {
    pub version: ClassFileVersion,
    pub constants: ConstantPool,
    pub flags: ClassAccessFlags,
    pub name: String,
    pub superclass: Option<String>,
    pub interfaces: Vec<String>,
    pub fields: Vec<ClassFileField>,
    pub methods: Vec<ClassFileMethod>,
    pub deprecated: bool,
    pub source_file: Option<String>,
}

impl View for ClassFile {
    type V = ClassFileView;

    open spec fn view(&self) -> ClassFileView {
        ClassFileView {
            version: self.version,
            constants: self.constants@,
            flags: self.flags,
            name: self.name@,
            superclass: self.superclass.deep_view(),
            interfaces: self.interfaces.deep_view(),
            fields: self.fields.deep_view(),
            methods: self.methods.deep_view(),
            deprecated: self.deprecated,
            source_file: self.source_file.deep_view(),
        }
    }
}

} // verus!
