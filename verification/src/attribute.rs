use vstd::prelude::*;

verus! {

/// The mathematical shape of an attribute: a name and an opaque payload.
#[verifier::ext_equal]
pub ghost struct AttributeView {
    pub name: Seq<char>,
    pub bytes: Seq<u8>,
}

/// An attribute in the class file, which can belong to a class, field,
/// method, or code block: a name plus an opaque byte payload that the
/// assembler interprets when it recognizes the name.
#[derive(Debug, PartialEq)]
pub struct Attribute {
    pub name: String,
    pub bytes: Vec<u8>,
}

impl View for Attribute {
    type V = AttributeView;

    open spec fn view(&self) -> AttributeView {
        AttributeView { name: self.name@, bytes: self.bytes@ }
    }
}

impl DeepView for Attribute {
    type V = AttributeView;

    open spec fn deep_view(&self) -> AttributeView {
        self.view()
    }
}

impl Clone for Attribute {
    fn clone(&self) -> (r: Self)
        ensures
            r@ == self@,
    {
        Attribute { name: self.name.clone(), bytes: self.bytes.clone() }
    }
}

} // verus!
