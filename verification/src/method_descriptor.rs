use vstd::prelude::*;
use vstd::string::StrSliceExecFns;
use crate::class_reader_error::ClassReaderError;
use crate::class_reader_error::ClassReaderErrorView;
use crate::field_type::lemma_parse_field_type_advances;
use crate::field_type::lemma_parse_render_prefix;
use crate::field_type::spec_field_type_wf;
use crate::field_type::spec_parse_field_type;
use crate::field_type::spec_render_field_type;
use crate::field_type::FieldType;
use crate::field_type::FieldTypeView;

verus! {

/// The mathematical shape of a method descriptor.
#[verifier::ext_equal]
pub ghost struct MethodDescriptorView {
    pub parameters: Seq<FieldTypeView>,
    pub return_type: Option<FieldTypeView>,
}

/// A method's descriptor, parsed: the ordered parameter types and the return
/// type, where `None` means the method returns no value.
#[derive(Debug, PartialEq)]
pub struct MethodDescriptor {
    pub parameters: Vec<FieldType>,
    pub return_type: Option<FieldType>,
}

impl View for MethodDescriptor {
    type V = MethodDescriptorView;

    open spec fn view(&self) -> MethodDescriptorView {
        MethodDescriptorView {
            parameters: self.parameters.deep_view(),
            return_type: self.return_type.deep_view(),
        }
    }
}

impl DeepView for MethodDescriptor {
    type V = MethodDescriptorView;

    open spec fn deep_view(&self) -> MethodDescriptorView {
        self.view()
    }
}

impl Clone for MethodDescriptor {
    #[verifier::loop_isolation(false)]
    fn clone(&self) -> (r: Self)
        ensures
            r@ == self@,
    {
        let mut parameters: Vec<FieldType> = Vec::new();
        let mut i: usize = 0;
        while i < self.parameters.len()
            invariant
                i <= self.parameters.len(),
                parameters.deep_view() == self.parameters.deep_view().subrange(0, i as int),
            decreases self.parameters.len() - i,
        {
            parameters.push(self.parameters[i].clone());
            proof {
                assert(parameters.deep_view() =~~= self.parameters.deep_view().subrange(
                    0,
                    i + 1,
                ));
            }
            i = i + 1;
        }
        proof {
            assert(self.parameters.deep_view().subrange(
                0,
                self.parameters.deep_view().len() as int,
            ) =~= self.parameters.deep_view());
        }
        let return_type = match &self.return_type {
            Some(t) => Some(t.clone()),
            None => None,
        };
        MethodDescriptor { parameters, return_type }
    }
}

/// What parsing the parameter list at `pos` yields: the types up to and
/// excluding the closing parenthesis, and the position after it.
pub open spec fn spec_parse_params(s: Seq<char>, pos: int) -> Option<(Seq<FieldTypeView>, int)>
    decreases s.len() - pos,
    via check_spec_parse_params_decreases
{
    if pos < 0 || pos >= s.len() {
        None
    } else if s[pos] == ')' {
        Some((Seq::empty(), pos + 1))
    } else {
        match spec_parse_field_type(s, pos) {
            None => None,
            Some((t, p)) => match spec_parse_params(s, p) {
                None => None,
                Some((rest, q)) => Some((seq![t] + rest, q)),
            },
        }
    }
}

#[via_fn]
proof fn check_spec_parse_params_decreases(s: Seq<char>, pos: int) {
    lemma_parse_field_type_advances(s, pos);
}

/// What parsing a whole method descriptor yields: a parenthesized parameter
/// list followed by a return type, `V` standing for no value, consuming the
/// entire text.
pub open spec fn spec_parse_method_descriptor(s: Seq<char>) -> Option<MethodDescriptorView> {
    if s.len() == 0 || s[0] != '(' {
        None
    } else {
        match spec_parse_params(s, 1) {
            None => None,
            Some((parameters, q)) => {
                if q < s.len() && s[q] == 'V' {
                    if q + 1 == s.len() {
                        Some(MethodDescriptorView { parameters, return_type: None })
                    } else {
                        None
                    }
                } else {
                    match spec_parse_field_type(s, q) {
                        None => None,
                        Some((t, p)) => {
                            if p == s.len() {
                                Some(MethodDescriptorView { parameters, return_type: Some(t) })
                            } else {
                                None
                            }
                        },
                    }
                }
            },
        }
    }
}

/// The concatenated descriptors of a parameter list.
pub open spec fn spec_render_params(ps: Seq<FieldTypeView>) -> Seq<char>
    decreases ps.len(),
{
    if ps.len() == 0 {
        Seq::empty()
    } else {
        spec_render_field_type(ps[0]) + spec_render_params(ps.drop_first())
    }
}

/// The textual descriptor of a method: the parameter descriptors in
/// parentheses, then the return descriptor, `V` when there is no value.
pub open spec fn spec_render_method_descriptor(d: MethodDescriptorView) -> Seq<char> {
    seq!['('] + spec_render_params(d.parameters) + seq![')'] + (match d.return_type {
        None => seq!['V'],
        Some(t) => spec_render_field_type(t),
    })
}

/// A method descriptor that the grammar can express: every type in it is
/// expressible.
pub open spec fn spec_method_descriptor_wf(d: MethodDescriptorView) -> bool {
    (forall|i: int| 0 <= i < d.parameters.len() ==> spec_field_type_wf(#[trigger] d.parameters[i]))
        && (d.return_type matches Some(t) ==> spec_field_type_wf(t))
}

impl MethodDescriptor {
    /// Parses a textual method descriptor into its parameter types and
    /// return type, succeeding exactly on the strings of the descriptor
    /// grammar and carrying the offending text otherwise.
    #[verifier::loop_isolation(false)]
    pub fn parse(descriptor: &str) -> (r: Result<MethodDescriptor, ClassReaderError>)
        ensures
            match spec_parse_method_descriptor(descriptor@) {
                Some(d) => r matches Ok(md) && md@ == d,
                None => r matches Err(e) && e@ == (ClassReaderErrorView::InvalidTypeDescriptor {
                    descriptor: descriptor@,
                }),
            },
    {
        let n = descriptor.unicode_len();
        if n == 0 || descriptor.get_char(0) != '(' {
            return Err(ClassReaderError::InvalidTypeDescriptor(descriptor.to_owned()));
        }
        let mut pos: usize = 1;
        let mut parameters: Vec<FieldType> = Vec::new();
        proof {
            assert(parameters.deep_view() =~= Seq::<FieldTypeView>::empty());
        }
        while pos < n && descriptor.get_char(pos) != ')'
            invariant
                1 <= pos <= n,
                spec_parse_params(descriptor@, 1) == (match spec_parse_params(
                    descriptor@,
                    pos as int,
                ) {
                    None => None::<(Seq<FieldTypeView>, int)>,
                    Some((rest, q)) => Some((parameters.deep_view() + rest, q)),
                }),
            decreases n - pos,
        {
            let ghost old_pos = pos as int;
            let ghost old_params = parameters.deep_view();
            proof {
                lemma_parse_field_type_advances(descriptor@, pos as int);
            }
            match FieldType::parse_at(descriptor, pos, n) {
                None => {
                    return Err(ClassReaderError::InvalidTypeDescriptor(descriptor.to_owned()));
                },
                Some((t, p)) => {
                    parameters.push(t);
                    pos = p;
                    proof {
                        assert(parameters.deep_view() =~= old_params + seq![
                            parameters.deep_view()[old_params.len() as int],
                        ]);
                        let t_view = parameters.deep_view()[old_params.len() as int];
                        match spec_parse_params(descriptor@, pos as int) {
                            None => {},
                            Some((rest, q)) => {
                                assert(old_params + (seq![t_view] + rest) =~= (old_params + seq![
                                    t_view,
                                ]) + rest);
                            },
                        }
                    }
                },
            }
        }
        if pos >= n {
            return Err(ClassReaderError::InvalidTypeDescriptor(descriptor.to_owned()));
        }
        // The closing parenthesis of the parameter list.
        pos = pos + 1;
        proof {
            assert(parameters.deep_view() + Seq::<FieldTypeView>::empty() =~= parameters.deep_view());
        }
        if pos < n && descriptor.get_char(pos) == 'V' {
            if pos + 1 == n {
                Ok(MethodDescriptor { parameters, return_type: None })
            } else {
                Err(ClassReaderError::InvalidTypeDescriptor(descriptor.to_owned()))
            }
        } else {
            match FieldType::parse_at(descriptor, pos, n) {
                Some((t, p)) => {
                    if p == n {
                        Ok(MethodDescriptor { parameters, return_type: Some(t) })
                    } else {
                        Err(ClassReaderError::InvalidTypeDescriptor(descriptor.to_owned()))
                    }
                },
                None => Err(ClassReaderError::InvalidTypeDescriptor(descriptor.to_owned())),
            }
        }
    }

    /// Renders this descriptor back to its textual form.
    pub fn descriptor(&self) -> (r: String)
        ensures
            r@ == spec_render_method_descriptor(self@),
    {
        let mut text = String::from_str("(");
        proof {
            reveal_strlit("(");
            assert(text@ =~= seq!['('] + spec_render_params(
                self.parameters.deep_view().subrange(0, 0),
            ));
        }
        let mut i: usize = 0;
        while i < self.parameters.len()
            invariant
                i <= self.parameters.len(),
                text@ == seq!['('] + spec_render_params(
                    self.parameters.deep_view().subrange(0, i as int),
                ),
            decreases self.parameters.len() - i,
        {
            let rendered = self.parameters[i].descriptor();
            text = text.concat(rendered.as_str());
            proof {
                lemma_render_params_snoc(self.parameters.deep_view(), i as int);
            }
            i = i + 1;
        }
        proof {
            assert(self.parameters.deep_view().subrange(
                0,
                self.parameters.deep_view().len() as int,
            ) =~= self.parameters.deep_view());
        }
        let text = text.concat(")");
        match &self.return_type {
            None => {
                let r = text.concat("V");
                proof {
                    reveal_strlit(")");
                    reveal_strlit("V");
                    assert(r@ =~= spec_render_method_descriptor(self@));
                }
                r
            },
            Some(t) => {
                let r = text.concat(t.descriptor().as_str());
                proof {
                    reveal_strlit(")");
                    assert(r@ =~= spec_render_method_descriptor(self@));
                }
                r
            },
        }
    }
}

/// The first character of a rendered field type is never a grammar
/// delimiter: not `)` and not `V`.
proof fn lemma_render_first_char(t: FieldTypeView)
    ensures
        spec_render_field_type(t).len() > 0,
        spec_render_field_type(t)[0] != ')',
        spec_render_field_type(t)[0] != 'V',
{
}

/// The round trip of the parameter list: wherever the rendered parameters
/// followed by `)` stand in a larger text, parsing at their start yields
/// exactly those parameters and stops after the `)`.
proof fn lemma_parse_render_params(ps: Seq<FieldTypeView>, s: Seq<char>, pos: int)
    requires
        forall|i: int| 0 <= i < ps.len() ==> spec_field_type_wf(#[trigger] ps[i]),
        0 <= pos,
        pos + spec_render_params(ps).len() + 1 <= s.len(),
        s.subrange(pos, pos + spec_render_params(ps).len() as int) == spec_render_params(ps),
        s[pos + spec_render_params(ps).len()] == ')',
    ensures
        spec_parse_params(s, pos) == Some((ps, pos + spec_render_params(ps).len() + 1)),
    decreases ps.len(),
{
    let rendered = spec_render_params(ps);
    if ps.len() == 0 {
        assert(ps =~= Seq::<FieldTypeView>::empty());
        assert(s[pos] == ')');
    } else {
        let head = ps[0];
        let tail = ps.drop_first();
        let head_rendered = spec_render_field_type(head);
        let tail_rendered = spec_render_params(tail);
        assert(rendered == head_rendered + tail_rendered);
        assert forall|k: int| 0 <= k < rendered.len() implies s[pos + k] == rendered[k] by {
            assert(s.subrange(pos, pos + rendered.len() as int)[k] == rendered[k]);
        }
        lemma_render_first_char(head);
        assert(s.subrange(pos, pos + rendered.len() as int)[0] == rendered[0]);
        assert(s[pos] == rendered[0]);
        assert(rendered[0] == head_rendered[0]);
        assert(s.subrange(pos, pos + head_rendered.len() as int) =~= head_rendered);
        lemma_parse_render_prefix(head, s, pos);
        let mid = pos + head_rendered.len();
        assert(s.subrange(mid, mid + tail_rendered.len() as int) =~= tail_rendered) by {
            assert forall|k: int| 0 <= k < tail_rendered.len() implies s.subrange(
                mid,
                mid + tail_rendered.len() as int,
            )[k] == tail_rendered[k] by {
                assert(s[mid + k] == rendered[head_rendered.len() + k]);
            };
        }
        assert(s[mid + tail_rendered.len()] == ')');
        lemma_parse_render_params(tail, s, mid);
        assert(seq![head] + tail =~= ps);
    }
}

/// Law: method-descriptor parsing round-trips. Any expressible descriptor,
/// rendered to its textual form, parses back to exactly the same parameter
/// list and return type — equivalently, every syntactically valid method
/// descriptor string parses to a value whose re-rendered form is the
/// original string.
pub proof fn lemma_method_descriptor_round_trip(d: MethodDescriptorView)
    requires
        spec_method_descriptor_wf(d),
    ensures
        spec_parse_method_descriptor(spec_render_method_descriptor(d)) == Some(d),
{
    let s = spec_render_method_descriptor(d);
    let params_rendered = spec_render_params(d.parameters);
    let ret_rendered = match d.return_type {
        None => seq!['V'],
        Some(t) => spec_render_field_type(t),
    };
    assert(s =~= seq!['('] + params_rendered + seq![')'] + ret_rendered);
    assert(s[0] == '(');
    let close: int = 1 + params_rendered.len() as int;
    assert forall|k: int| 0 <= k < params_rendered.len() implies s[1 + k] == params_rendered[k]
        by {}
    assert(s.subrange(1, 1 + params_rendered.len() as int) =~= params_rendered);
    assert(s[close] == ')');
    match d.return_type {
        None => {
            lemma_parse_render_params(d.parameters, s, 1);
            assert(s[close + 1] == 'V');
            assert(close + 2 == s.len());
        },
        Some(t) => {
            lemma_parse_render_params(d.parameters, s, 1);
            let q = close + 1;
            lemma_render_first_char(t);
            assert(s[q] == spec_render_field_type(t)[0]);
            assert(s.subrange(q, q + spec_render_field_type(t).len() as int) =~= spec_render_field_type(
                t,
            ));
            lemma_parse_render_prefix(t, s, q);
        },
    }
}

/// The string-side round trip of the parameter list: whatever the parameter
/// parser accepts re-renders to exactly the consumed text up to its closing
/// parenthesis.
proof fn lemma_parse_params_yields_render(s: Seq<char>, pos: int)
    ensures
        spec_parse_params(s, pos) matches Some((ps, q)) ==> (forall|i: int|
            0 <= i < ps.len() ==> spec_field_type_wf(#[trigger] ps[i])) && pos + 1 <= q <= s.len()
            && s[q - 1] == ')' && spec_render_params(ps) == s.subrange(pos, q - 1),
    decreases s.len() - pos,
{
    if 0 <= pos < s.len() {
        match spec_parse_params(s, pos) {
            None => {},
            Some((ps, q)) => {
                if s[pos] == ')' {
                    assert(spec_render_params(ps) =~= s.subrange(pos, pos));
                } else {
                    match spec_parse_field_type(s, pos) {
                        None => {},
                        Some((t, p)) => {
                            crate::field_type::lemma_parse_yields_render(s, pos);
                            lemma_parse_field_type_advances(s, pos);
                            lemma_parse_params_yields_render(s, p);
                            match spec_parse_params(s, p) {
                                None => {},
                                Some((rest, q2)) => {
                                    assert((seq![t] + rest)[0] == t);
                                    assert((seq![t] + rest).drop_first() =~= rest);
                                    let head_rendered = spec_render_field_type(t);
                                    let tail_rendered = spec_render_params(rest);
                                    assert(head_rendered == s.subrange(pos, p));
                                    assert(tail_rendered == s.subrange(p, q2 - 1));
                                    assert(spec_render_params(ps) =~= s.subrange(pos, q2 - 1)) by {
                                        assert forall|k: int|
                                            0 <= k < q2 - 1 - pos implies (head_rendered
                                            + tail_rendered)[k] == s.subrange(pos, q2 - 1)[k] by {
                                            if k < p - pos {
                                                assert(head_rendered[k] == s.subrange(pos, p)[k]);
                                            } else {
                                                assert(tail_rendered[k - (p - pos)] == s.subrange(
                                                    p,
                                                    q2 - 1,
                                                )[k - (p - pos)]);
                                            }
                                        };
                                    }
                                },
                            }
                        },
                    }
                }
            },
        }
    }
}

/// Law: method-descriptor parsing round-trips, stated from the string side.
/// Every syntactically valid method descriptor string parses to a value
/// whose re-rendered textual form equals the original input.
pub proof fn lemma_method_descriptor_parse_faithful(s: Seq<char>)
    ensures
        spec_parse_method_descriptor(s) matches Some(d) ==> spec_method_descriptor_wf(d)
            && spec_render_method_descriptor(d) == s,
{
    match spec_parse_method_descriptor(s) {
        None => {},
        Some(d) => {
            lemma_parse_params_yields_render(s, 1);
            match spec_parse_params(s, 1) {
                None => {},
                Some((ps, q)) => {
                    let params_rendered = spec_render_params(ps);
                    assert(params_rendered == s.subrange(1, q - 1));
                    match d.return_type {
                        None => {
                            assert(spec_render_method_descriptor(d) =~= s) by {
                                assert forall|k: int|
                                    0 <= k < s.len() implies spec_render_method_descriptor(d)[k]
                                    == s[k] by {
                                    if 1 <= k < q - 1 {
                                        assert(params_rendered[k - 1] == s.subrange(
                                            1,
                                            q - 1,
                                        )[k - 1]);
                                    }
                                };
                            }
                        },
                        Some(t) => {
                            crate::field_type::lemma_parse_yields_render(s, q);
                            match spec_parse_field_type(s, q) {
                                None => {},
                                Some((_, p)) => {
                                    let ret_rendered = spec_render_field_type(t);
                                    assert(ret_rendered == s.subrange(q, p));
                                    assert(spec_render_method_descriptor(d) =~= s) by {
                                        assert forall|k: int|
                                            0 <= k < s.len() implies spec_render_method_descriptor(
                                            d,
                                        )[k] == s[k] by {
                                            if 1 <= k < q - 1 {
                                                assert(params_rendered[k - 1] == s.subrange(
                                                    1,
                                                    q - 1,
                                                )[k - 1]);
                                            }
                                            if q <= k < p {
                                                assert(ret_rendered[k - q] == s.subrange(
                                                    q,
                                                    p,
                                                )[k - q]);
                                            }
                                        };
                                    }
                                },
                            }
                        },
                    }
                },
            }
        },
    }
}

/// Rendering one more parameter appends its descriptor.
proof fn lemma_render_params_snoc(ps: Seq<FieldTypeView>, i: int)
    requires
        0 <= i < ps.len(),
    ensures
        spec_render_params(ps.subrange(0, i + 1)) == spec_render_params(ps.subrange(0, i))
            + spec_render_field_type(ps[i]),
    decreases i,
{
    if i == 0 {
        assert(ps.subrange(0, 1).drop_first() =~= Seq::<FieldTypeView>::empty());
        assert(ps.subrange(0, 1)[0] == ps[0]);
        assert(ps.subrange(0, 0) =~= Seq::<FieldTypeView>::empty());
        assert(ps.subrange(0, 1).drop_first() == Seq::<FieldTypeView>::empty());
        assert(spec_render_params(Seq::<FieldTypeView>::empty()) == Seq::<char>::empty());
        assert(spec_render_params(ps.subrange(0, 1)) =~= spec_render_field_type(ps[0]));
        assert(spec_render_params(ps.subrange(0, 0)) + spec_render_field_type(ps[0])
            =~= spec_render_field_type(ps[0]));
    } else {
        let shifted = ps.drop_first();
        lemma_render_params_snoc(shifted, i - 1);
        assert(ps.subrange(0, i + 1).drop_first() =~= shifted.subrange(0, i));
        assert(ps.subrange(0, i).drop_first() =~= shifted.subrange(0, i - 1));
        assert(ps.subrange(0, i + 1)[0] == ps[0]);
        assert(ps.subrange(0, i)[0] == ps[0]);
        assert(shifted[i - 1] == ps[i]);
        assert(spec_render_field_type(ps[0]) + (spec_render_params(shifted.subrange(0, i - 1))
            + spec_render_field_type(ps[i])) =~= (spec_render_field_type(ps[0])
            + spec_render_params(shifted.subrange(0, i - 1))) + spec_render_field_type(ps[i]));
    }
}

} // verus!
