use vstd::prelude::*;
use vstd::string::StrSliceExecFns;
use crate::class_reader_error::ClassReaderError;
use crate::class_reader_error::ClassReaderErrorView;

verus! {

/// The primitive kinds of the type-descriptor grammar.
#[derive(Debug, PartialEq, Eq, Clone, Copy, Structural)]
pub enum BaseType {
    Byte,
    Char,
    Double,
    Float,
    Int,
    Long,
    Short,
    Boolean,
}

/// The mathematical shape of a field type.
#[verifier::ext_equal]
pub ghost enum FieldTypeView {
    Base(BaseType),
    Object(Seq<char>),
    Array(Box<FieldTypeView>),
}

/// A field's type, parsed from its textual descriptor: a primitive kind, an
/// object type with its binary class name, or an array of another type.
#[derive(Debug, PartialEq)]
pub enum FieldType {
    Base(BaseType),
    Object(String),
    Array(Box<FieldType>),
}

/// The mathematical value of a field type.
pub open spec fn spec_field_type_view(t: FieldType) -> FieldTypeView
    decreases t,
{
    match t {
        FieldType::Base(b) => FieldTypeView::Base(b),
        FieldType::Object(name) => FieldTypeView::Object(name@),
        FieldType::Array(inner) => FieldTypeView::Array(Box::new(spec_field_type_view(*inner))),
    }
}

impl View for FieldType {
    type V = FieldTypeView;

    open spec fn view(&self) -> FieldTypeView {
        spec_field_type_view(*self)
    }
}

impl DeepView for FieldType {
    type V = FieldTypeView;

    open spec fn deep_view(&self) -> FieldTypeView {
        spec_field_type_view(*self)
    }
}

impl Clone for FieldType {
    fn clone(&self) -> (r: Self)
        ensures
            r@ == self@,
        decreases self,
    {
        match self {
            FieldType::Base(b) => FieldType::Base(*b),
            FieldType::Object(name) => FieldType::Object(name.clone()),
            FieldType::Array(inner) => FieldType::Array(Box::new((**inner).clone())),
        }
    }
}

/// The descriptor character of a primitive kind.
pub open spec fn spec_base_type_char(b: BaseType) -> char {
    match b {
        BaseType::Byte => 'B',
        BaseType::Char => 'C',
        BaseType::Double => 'D',
        BaseType::Float => 'F',
        BaseType::Int => 'I',
        BaseType::Long => 'J',
        BaseType::Short => 'S',
        BaseType::Boolean => 'Z',
    }
}

/// The textual descriptor of a field type: one character for a primitive
/// kind, `L<name>;` for an object type, `[` followed by the element's
/// descriptor for an array type.
pub open spec fn spec_render_field_type(t: FieldTypeView) -> Seq<char>
    decreases t,
{
    match t {
        FieldTypeView::Base(b) => seq![spec_base_type_char(b)],
        FieldTypeView::Object(name) => seq!['L'] + name + seq![';'],
        FieldTypeView::Array(inner) => seq!['['] + spec_render_field_type(*inner),
    }
}

/// A field type that the descriptor grammar can express: object names do not
/// contain the `;` terminator.
pub open spec fn spec_field_type_wf(t: FieldTypeView) -> bool
    decreases t,
{
    match t {
        FieldTypeView::Base(_) => true,
        FieldTypeView::Object(name) => !name.contains(';'),
        FieldTypeView::Array(inner) => spec_field_type_wf(*inner),
    }
}

/// The position of the first `;` at or after `i`, if any.
pub open spec fn spec_find_semicolon(s: Seq<char>, i: int) -> Option<int>
    decreases s.len() - i,
{
    if i < 0 || i >= s.len() {
        None
    } else if s[i] == ';' {
        Some(i)
    } else {
        spec_find_semicolon(s, i + 1)
    }
}

/// What parsing one field type at `pos` yields: the type and the position
/// after it, or nothing when the text at `pos` does not start a valid
/// descriptor.
pub open spec fn spec_parse_field_type(s: Seq<char>, pos: int) -> Option<(FieldTypeView, int)>
    decreases s.len() - pos,
{
    if pos < 0 || pos >= s.len() {
        None
    } else {
        let c = s[pos];
        if c == 'B' {
            Some((FieldTypeView::Base(BaseType::Byte), pos + 1))
        } else if c == 'C' {
            Some((FieldTypeView::Base(BaseType::Char), pos + 1))
        } else if c == 'D' {
            Some((FieldTypeView::Base(BaseType::Double), pos + 1))
        } else if c == 'F' {
            Some((FieldTypeView::Base(BaseType::Float), pos + 1))
        } else if c == 'I' {
            Some((FieldTypeView::Base(BaseType::Int), pos + 1))
        } else if c == 'J' {
            Some((FieldTypeView::Base(BaseType::Long), pos + 1))
        } else if c == 'S' {
            Some((FieldTypeView::Base(BaseType::Short), pos + 1))
        } else if c == 'Z' {
            Some((FieldTypeView::Base(BaseType::Boolean), pos + 1))
        } else if c == 'L' {
            match spec_find_semicolon(s, pos + 1) {
                None => None,
                Some(j) => Some((FieldTypeView::Object(s.subrange(pos + 1, j)), j + 1)),
            }
        } else if c == '[' {
            match spec_parse_field_type(s, pos + 1) {
                None => None,
                Some((t, p)) => Some((FieldTypeView::Array(Box::new(t)), p)),
            }
        } else {
            None
        }
    }
}

/// What parsing a whole field descriptor yields: one field type consuming
/// the entire text.
pub open spec fn spec_parse_field_descriptor(s: Seq<char>) -> Option<FieldTypeView> {
    match spec_parse_field_type(s, 0) {
        None => None,
        Some((t, p)) => if p == s.len() {
            Some(t)
        } else {
            None
        },
    }
}

/// A successful parse always advances, and never past the end.
pub proof fn lemma_parse_field_type_advances(s: Seq<char>, pos: int)
    ensures
        spec_parse_field_type(s, pos) matches Some((t, p)) ==> pos < p <= s.len(),
    decreases s.len() - pos,
{
    if 0 <= pos < s.len() {
        if s[pos] == '[' {
            lemma_parse_field_type_advances(s, pos + 1);
        }
        if s[pos] == 'L' {
            lemma_find_semicolon_in_range(s, pos + 1);
        }
    }
}

/// A found separator lies between the start of the search and the end.
pub proof fn lemma_find_semicolon_in_range(s: Seq<char>, i: int)
    ensures
        spec_find_semicolon(s, i) matches Some(j) ==> i <= j < s.len() && s[j] == ';'
            && (forall|k: int| i <= k < j ==> s[k] != ';'),
    decreases s.len() - i,
{
    if 0 <= i < s.len() && s[i] != ';' {
        lemma_find_semicolon_in_range(s, i + 1);
    }
}

impl FieldType {
    /// Parses a textual field descriptor into its structured type tree,
    /// succeeding exactly on the strings of the descriptor grammar and
    /// carrying the offending text otherwise.
    pub fn parse(type_descriptor: &str) -> (r: Result<FieldType, ClassReaderError>)
        ensures
            match spec_parse_field_descriptor(type_descriptor@) {
                Some(t) => r matches Ok(ft) && ft@ == t,
                None => r matches Err(e) && e@ == (ClassReaderErrorView::InvalidTypeDescriptor {
                    descriptor: type_descriptor@,
                }),
            },
    {
        let n = type_descriptor.unicode_len();
        match Self::parse_at(type_descriptor, 0, n) {
            Some((t, next)) if next == n => Ok(t),
            _ => Err(ClassReaderError::InvalidTypeDescriptor(type_descriptor.to_owned())),
        }
    }

    /// Parses one field type starting at `pos`; `n` is the character length
    /// of the whole text.
    pub(crate) fn parse_at(s: &str, pos: usize, n: usize) -> (r: Option<(FieldType, usize)>)
        requires
            n == s@.len(),
        ensures
            match spec_parse_field_type(s@, pos as int) {
                Some((t, p)) => r matches Some((ft, next)) && ft@ == t && next == p,
                None => r is None,
            },
        decreases n - pos,
    {
        proof {
            lemma_parse_field_type_advances(s@, pos as int);
        }
        if pos >= n {
            return None;
        }
        let c = s.get_char(pos);
        if c == 'B' {
            Some((FieldType::Base(BaseType::Byte), pos + 1))
        } else if c == 'C' {
            Some((FieldType::Base(BaseType::Char), pos + 1))
        } else if c == 'D' {
            Some((FieldType::Base(BaseType::Double), pos + 1))
        } else if c == 'F' {
            Some((FieldType::Base(BaseType::Float), pos + 1))
        } else if c == 'I' {
            Some((FieldType::Base(BaseType::Int), pos + 1))
        } else if c == 'J' {
            Some((FieldType::Base(BaseType::Long), pos + 1))
        } else if c == 'S' {
            Some((FieldType::Base(BaseType::Short), pos + 1))
        } else if c == 'Z' {
            Some((FieldType::Base(BaseType::Boolean), pos + 1))
        } else if c == 'L' {
            let mut j = pos + 1;
            while j < n && s.get_char(j) != ';'
                invariant
                    pos + 1 <= j <= n,
                    n == s@.len(),
                    spec_find_semicolon(s@, pos + 1) == spec_find_semicolon(s@, j as int),
                decreases n - j,
            {
                j = j + 1;
            }
            if j >= n {
                None
            } else {
                let name = s.substring_char(pos + 1, j).to_owned();
                Some((FieldType::Object(name), j + 1))
            }
        } else if c == '[' {
            match Self::parse_at(s, pos + 1, n) {
                None => None,
                Some((t, p)) => Some((FieldType::Array(Box::new(t)), p)),
            }
        } else {
            None
        }
    }

    /// Renders this type back to its textual descriptor.
    pub fn descriptor(&self) -> (r: String)
        ensures
            r@ == spec_render_field_type(self@),
        decreases self,
    {
        match self {
            FieldType::Base(b) => {
                let s = base_type_str(*b).to_owned();
                proof {
                    assert(s@ =~= spec_render_field_type(self@));
                }
                s
            },
            FieldType::Object(name) => {
                let s = String::from_str("L").concat(name.as_str()).concat(";");
                proof {
                    reveal_strlit("L");
                    reveal_strlit(";");
                    assert(s@ =~= spec_render_field_type(self@));
                }
                s
            },
            FieldType::Array(inner) => {
                let s = String::from_str("[").concat((**inner).descriptor().as_str());
                proof {
                    reveal_strlit("[");
                    assert(s@ =~= spec_render_field_type(self@));
                }
                s
            },
        }
    }
}

fn base_type_str(b: BaseType) -> (r: &'static str)
    ensures
        r@.len() == 1,
        r@[0] == spec_base_type_char(b),
{
    proof {
        reveal_strlit("B");
        reveal_strlit("C");
        reveal_strlit("D");
        reveal_strlit("F");
        reveal_strlit("I");
        reveal_strlit("J");
        reveal_strlit("S");
        reveal_strlit("Z");
    }
    match b {
        BaseType::Byte => "B",
        BaseType::Char => "C",
        BaseType::Double => "D",
        BaseType::Float => "F",
        BaseType::Int => "I",
        BaseType::Long => "J",
        BaseType::Short => "S",
        BaseType::Boolean => "Z",
    }
}

/// Law: descriptor parsing round-trips. Any expressible field type, rendered
/// to its textual descriptor, parses back to exactly that type with the full
/// text consumed — equivalently, every syntactically valid descriptor string
/// parses to a tree whose re-rendered form is the original string.
pub proof fn lemma_field_descriptor_round_trip(t: FieldTypeView)
    requires
        spec_field_type_wf(t),
    ensures
        spec_parse_field_descriptor(spec_render_field_type(t)) == Some(t),
{
    let rendered = spec_render_field_type(t);
    assert(rendered.subrange(0, rendered.len() as int) =~= rendered);
    lemma_parse_render_prefix(t, rendered, 0);
}

/// The round trip, generalized: wherever a rendered type stands in a larger
/// text, parsing at its start yields the type and stops right after it.
pub proof fn lemma_parse_render_prefix(t: FieldTypeView, s: Seq<char>, pos: int)
    requires
        spec_field_type_wf(t),
        0 <= pos,
        pos + spec_render_field_type(t).len() <= s.len(),
        s.subrange(pos, pos + spec_render_field_type(t).len() as int) == spec_render_field_type(t),
    ensures
        spec_parse_field_type(s, pos) == Some((t, pos + spec_render_field_type(t).len())),
    decreases t,
{
    let rendered = spec_render_field_type(t);
    match t {
        FieldTypeView::Base(b) => {
            assert(s[pos] == rendered[0]);
        },
        FieldTypeView::Object(name) => {
            let end = pos + 1 + name.len();
            assert(s[pos] == rendered[0]);
            assert(s[pos] == 'L');
            assert forall|k: int| pos + 1 <= k < end implies s[k] != ';' by {
                assert(s[k] == rendered[k - pos]);
                assert(rendered[k - pos] == name[k - pos - 1]);
                assert(name.contains(name[k - pos - 1]) == false ==> true);
                if s[k] == ';' {
                    assert(name[k - pos - 1] == ';');
                    assert(name.contains(';'));
                }
            }
            assert(s[end] == rendered[end - pos]);
            assert(s[end] == ';');
            lemma_find_first_semicolon(s, pos + 1, end);
            assert(s.subrange(pos + 1, end) =~= name) by {
                assert forall|k: int| 0 <= k < name.len() implies s.subrange(pos + 1, end)[k]
                    == name[k] by {
                    assert(s[pos + 1 + k] == rendered[1 + k]);
                };
            }
        },
        FieldTypeView::Array(inner) => {
            assert(s[pos] == rendered[0]);
            assert(s[pos] == '[');
            let inner_rendered = spec_render_field_type(*inner);
            assert(s.subrange(pos + 1, pos + 1 + inner_rendered.len() as int) =~= inner_rendered)
                by {
                assert forall|k: int| 0 <= k < inner_rendered.len() implies s.subrange(
                    pos + 1,
                    pos + 1 + inner_rendered.len() as int,
                )[k] == inner_rendered[k] by {
                    assert(s[pos + 1 + k] == rendered[1 + k]);
                };
            }
            lemma_parse_render_prefix(*inner, s, pos + 1);
        },
    }
}

/// Law: descriptor parsing round-trips, stated from the string side. Every
/// syntactically valid descriptor — any string the parser accepts — parses
/// to an expressible type tree whose re-rendered textual form is exactly the
/// consumed input.
pub proof fn lemma_parse_yields_render(s: Seq<char>, pos: int)
    ensures
        spec_parse_field_type(s, pos) matches Some((t, p)) ==> spec_field_type_wf(t)
            && spec_render_field_type(t) == s.subrange(pos, p),
    decreases s.len() - pos,
{
    if 0 <= pos < s.len() {
        let c = s[pos];
        match spec_parse_field_type(s, pos) {
            None => {},
            Some((t, p)) => {
                if c == 'L' {
                    match spec_find_semicolon(s, pos + 1) {
                        None => {},
                        Some(j) => {
                            lemma_find_semicolon_in_range(s, pos + 1);
                            let name = s.subrange(pos + 1, j);
                            assert(!name.contains(';')) by {
                                if name.contains(';') {
                                    let k = choose|k: int|
                                        0 <= k < name.len() && name[k] == ';';
                                    assert(s[pos + 1 + k] == ';');
                                }
                            }
                            assert(spec_render_field_type(t) =~= s.subrange(pos, j + 1)) by {
                                assert forall|k: int|
                                    0 <= k < j + 1 - pos implies (seq!['L'] + name + seq![
                                    ';',
                                ])[k] == s.subrange(pos, j + 1)[k] by {
                                    if 1 <= k < j - pos {
                                        assert(name[k - 1] == s[pos + k]);
                                    }
                                };
                            }
                        },
                    }
                } else if c == '[' {
                    lemma_parse_yields_render(s, pos + 1);
                    match spec_parse_field_type(s, pos + 1) {
                        None => {},
                        Some((inner, q)) => {
                            lemma_parse_field_type_advances(s, pos + 1);
                            assert(spec_render_field_type(t) =~= s.subrange(pos, q)) by {
                                let inner_rendered = spec_render_field_type(inner);
                                assert(inner_rendered == s.subrange(pos + 1, q));
                                assert forall|k: int|
                                    0 <= k < q - pos implies (seq!['['] + inner_rendered)[k]
                                    == s.subrange(pos, q)[k] by {
                                    if k >= 1 {
                                        assert(inner_rendered[k - 1] == s.subrange(
                                            pos + 1,
                                            q,
                                        )[k - 1]);
                                    }
                                };
                            }
                        },
                    }
                } else {
                    assert(spec_render_field_type(t) =~= s.subrange(pos, pos + 1));
                }
            },
        }
    }
}

/// When no `;` stands in `[i, end)` and one stands at `end`, the first `;`
/// found from `i` is the one at `end`.
proof fn lemma_find_first_semicolon(s: Seq<char>, i: int, end: int)
    requires
        0 <= i <= end < s.len(),
        s[end] == ';',
        forall|k: int| i <= k < end ==> s[k] != ';',
    ensures
        spec_find_semicolon(s, i) == Some(end),
    decreases end - i,
{
    if i < end {
        lemma_find_first_semicolon(s, i + 1, end);
    }
}

} // verus!
