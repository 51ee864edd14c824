use vstd::prelude::*;
use vstd::string::StrSliceExecFns;

use crate::annotations::{annotations_code, annotations_inline, push_annotations_inline, Annotation};
use crate::modifiers::{contains_modifier, modifiers_are_valid, modifiers_code, modifiers_valid, AccessModifiers};
use crate::types::{type_code, GenericParams, TypeName};
use crate::Codegen;

verus! {

/// A method or constructor parameter: a type, a name and annotations.
#[derive(Clone)]
pub struct VariableParam {
    pub name: String,
    pub type_: TypeName,
    pub annotation: Vec<Annotation>,
}

impl VariableParam {
    pub fn new(type_: TypeName, name: String) -> (r: Self)
        ensures
            r.name@ == name@,
            r.type_ == type_,
            r.annotation@.len() == 0,
    {
        Self { name, type_, annotation: Vec::new() }
    }

    /// Appends an annotation to the parameter.
    pub fn annotation(self, a: Annotation) -> (r: Self)
        ensures
            r == (VariableParam { annotation: r.annotation, ..self }),
            r.annotation@ == self.annotation@.push(a),
    {
        let mut p = self;
        p.annotation.push(a);
        p
    }
}

/// A parameter renders as its annotations, its type, a space and its name.
pub open spec fn param_code(p: VariableParam) -> Seq<char> {
    annotations_inline(p.annotation@) + type_code(p.type_) + " "@ + p.name@
}

/// The parameters rendered and separated by commas.
pub open spec fn join_params(ps: Seq<VariableParam>) -> Seq<char>
    decreases ps.len(),
{
    if ps.len() == 0 {
        Seq::empty()
    } else if ps.len() == 1 {
        param_code(ps[0])
    } else {
        join_params(ps.drop_last()) + ","@ + param_code(ps.last())
    }
}

/// A parameter list renders in parentheses, in order, comma separated.
pub open spec fn params_code(ps: Seq<VariableParam>) -> Seq<char> {
    "("@ + join_params(ps) + ")"@
}

impl Codegen for Vec<VariableParam> {
    open spec fn can_render(&self) -> bool {
        true
    }

    open spec fn rendered(&self) -> Seq<char> {
        params_code(self@)
    }

    fn generate_code(&self) -> (r: String) {
        let mut out = String::new();
        out.append("(");
        let ghost start = out@;
        let mut i: usize = 0;
        while i < self.len()
            invariant
                0 <= i <= self.len(),
                out@ == start + join_params(self@.take(i as int)),
            decreases self.len() - i,
        {
            if i > 0 {
                out.append(",");
            }
            push_annotations_inline(&mut out, &self[i].annotation);
            let tc = self[i].type_.generate_code();
            out.append(tc.as_str());
            out.append(" ");
            out.append(self[i].name.as_str());
            proof {
                let t = self@.take(i as int + 1);
                assert(t.drop_last() =~= self@.take(i as int));
                assert(out@ =~= start + join_params(t));
            }
            i = i + 1;
        }
        assert(self@.take(self.len() as int) =~= self@);
        out.append(")");
        out
    }
}

/// What the character at `i` of a method body contributes to the indented
/// body: a tab when it starts a line, then the character itself, except for
/// a carriage return that ends a line.
pub open spec fn body_piece(s: Seq<char>, i: int) -> Seq<char> {
    (if i == 0 || s[i - 1] == '\n' {
        "\t"@
    } else {
        Seq::empty()
    }) + (if s[i] == '\r' && i + 1 < s.len() && s[i + 1] == '\n' {
        Seq::empty()
    } else {
        seq![s[i]]
    })
}

/// The pieces of the first `n` characters of `s`.
pub open spec fn body_prefix(s: Seq<char>, n: int) -> Seq<char>
    decreases n,
{
    if n <= 0 {
        Seq::empty()
    } else {
        body_prefix(s, n - 1) + body_piece(s, n - 1)
    }
}

/// A method body with each of its lines (split at `\n` or `\r\n`, as
/// `str::lines` splits them) preceded by a tab and ended by a newline.
pub open spec fn indented_body(s: Seq<char>) -> Seq<char> {
    body_prefix(s, s.len() as int) + if s.len() > 0 && s.last() != '\n' {
        "\n"@
    } else {
        Seq::empty()
    }
}

/// Appends the body with every line indented by one tab.
pub fn push_indented_body(out: &mut String, body: &str)
    ensures
        final(out)@ == old(out)@ + indented_body(body@),
{
    let ghost start = out@;
    let n = body.unicode_len();
    let mut i: usize = 0;
    while i < n
        invariant
            n == body@.len(),
            0 <= i <= n,
            out@ == start + body_prefix(body@, i as int),
        decreases n - i,
    {
        let c = body.get_char(i);
        if i == 0 {
            out.append("\t");
        } else if body.get_char(i - 1) == '\n' {
            out.append("\t");
        }
        let mut skip = false;
        if c == '\r' && i + 1 < n {
            if body.get_char(i + 1) == '\n' {
                skip = true;
            }
        }
        if !skip {
            let piece = body.substring_char(i, i + 1);
            assert(piece@ =~= seq![body@[i as int]]);
            out.append(piece);
        }
        assert(out@ =~= start + body_prefix(body@, i as int + 1));
        i = i + 1;
    }
    if n > 0 && body.get_char(n - 1) != '\n' {
        out.append("\n");
    }
    assert(out@ =~= start + indented_body(body@));
}

/// A method: name, return type, modifiers, generics, parameters, body text
/// and annotations.
#[derive(Clone)]
pub struct Method {
    pub annotations: Vec<Annotation>,
    pub modifiers: Vec<AccessModifiers>,
    pub generics: GenericParams,
    pub parameters: Vec<VariableParam>,
    pub return_type: TypeName,
    pub code: String,
    pub name: String,
}

/// Whether a method is abstract.
pub open spec fn is_abstract(m: Method) -> bool {
    m.modifiers@.contains(AccessModifiers::Abstract)
}

/// A method can be rendered when its modifiers are valid and, if it is
/// abstract, its body is empty.
pub open spec fn method_valid(m: Method) -> bool {
    modifiers_valid(m.modifiers@) && (is_abstract(m) ==> m.code@.len() == 0)
}

/// Annotations, modifiers, return type, name and parameters.
pub open spec fn method_header(m: Method) -> Seq<char> {
    annotations_code(m.annotations@) + modifiers_code(m.modifiers@) + type_code(m.return_type)
        + " "@ + m.name@ + params_code(m.parameters@)
}

/// The body part of a method: `{}` when empty, else `{`, a newline, the
/// indented lines and `}`.
pub open spec fn method_body(code: Seq<char>) -> Seq<char> {
    if code.len() == 0 {
        "{}"@
    } else {
        "{\n"@ + indented_body(code) + "}"@
    }
}

/// An abstract method renders as its header and `;`; any other method as its
/// header and its body; a newline ends both.
pub open spec fn method_code(m: Method) -> Seq<char> {
    method_header(m) + if is_abstract(m) {
        ";\n"@
    } else {
        method_body(m.code@) + "\n"@
    }
}

impl Method {
    pub fn new(return_type: TypeName, name: String) -> (r: Self)
        ensures
            r.return_type == return_type,
            r.name@ == name@,
            r.annotations@.len() == 0,
            r.modifiers@.len() == 0,
            r.generics.generics@.len() == 0,
            r.parameters@.len() == 0,
            r.code@.len() == 0,
    {
        Self {
            return_type,
            name,
            annotations: Vec::new(),
            generics: GenericParams::new(Vec::new()),
            parameters: Vec::new(),
            modifiers: Vec::new(),
            code: String::new(),
        }
    }

    /// Adds a modifier.
    pub fn modifier(self, m: AccessModifiers) -> (r: Self)
        ensures
            r == (Method { modifiers: r.modifiers, ..self }),
            r.modifiers@ == self.modifiers@.push(m),
    {
        let mut s = self;
        s.modifiers.push(m);
        s
    }

    pub fn public(self) -> (r: Self)
        ensures
            r == (Method { modifiers: r.modifiers, ..self }),
            r.modifiers@ == self.modifiers@.push(AccessModifiers::Public),
    {
        self.modifier(AccessModifiers::Public)
    }

    pub fn private(self) -> (r: Self)
        ensures
            r == (Method { modifiers: r.modifiers, ..self }),
            r.modifiers@ == self.modifiers@.push(AccessModifiers::Private),
    {
        self.modifier(AccessModifiers::Private)
    }

    pub fn protected(self) -> (r: Self)
        ensures
            r == (Method { modifiers: r.modifiers, ..self }),
            r.modifiers@ == self.modifiers@.push(AccessModifiers::Protected),
    {
        self.modifier(AccessModifiers::Protected)
    }

    pub fn abstract_(self) -> (r: Self)
        ensures
            r == (Method { modifiers: r.modifiers, ..self }),
            r.modifiers@ == self.modifiers@.push(AccessModifiers::Abstract),
    {
        self.modifier(AccessModifiers::Abstract)
    }

    pub fn static_(self) -> (r: Self)
        ensures
            r == (Method { modifiers: r.modifiers, ..self }),
            r.modifiers@ == self.modifiers@.push(AccessModifiers::Static),
    {
        self.modifier(AccessModifiers::Static)
    }

    pub fn final_(self) -> (r: Self)
        ensures
            r == (Method { modifiers: r.modifiers, ..self }),
            r.modifiers@ == self.modifiers@.push(AccessModifiers::Final),
    {
        self.modifier(AccessModifiers::Final)
    }

    /// Sets the body text.
    pub fn code(self, s: String) -> (r: Self)
        ensures
            r == (Method { code: s, ..self }),
    {
        Method { code: s, ..self }
    }

    pub fn annotation(self, a: Annotation) -> (r: Self)
        ensures
            r == (Method { annotations: r.annotations, ..self }),
            r.annotations@ == self.annotations@.push(a),
    {
        let mut s = self;
        s.annotations.push(a);
        s
    }

    pub fn generic_param(self, g: String) -> (r: Self)
        ensures
            r == (Method { generics: r.generics, ..self }),
            r.generics.generics@ == self.generics.generics@.push(g),
    {
        let mut s = self;
        s.generics.generics.push(g);
        s
    }

    pub fn param(self, v: VariableParam) -> (r: Self)
        ensures
            r == (Method { parameters: r.parameters, ..self }),
            r.parameters@ == self.parameters@.push(v),
    {
        let mut s = self;
        s.parameters.push(v);
        s
    }

    /// Whether this method can be rendered.
    pub fn is_valid(&self) -> (r: bool)
        ensures
            r == method_valid(*self),
    {
        let abstract_ = contains_modifier(&self.modifiers, AccessModifiers::Abstract);
        modifiers_are_valid(&self.modifiers) && (!abstract_ || self.code.as_str().unicode_len()
            == 0)
    }
}

impl Codegen for Method {
    open spec fn can_render(&self) -> bool {
        method_valid(*self)
    }

    open spec fn rendered(&self) -> Seq<char> {
        method_code(*self)
    }

    fn generate_code(&self) -> (r: String) {
        let mut out = self.annotations.generate_code();
        let mods = self.modifiers.generate_code();
        out.append(mods.as_str());
        let rt = self.return_type.generate_code();
        out.append(rt.as_str());
        out.append(" ");
        out.append(self.name.as_str());
        let ps = self.parameters.generate_code();
        out.append(ps.as_str());
        assert(out@ =~= method_header(*self));
        if contains_modifier(&self.modifiers, AccessModifiers::Abstract) {
            out.append(";\n");
            assert(out@ =~= method_code(*self));
            return out;
        }
        if self.code.as_str().unicode_len() == 0 {
            out.append("{}");
        } else {
            out.append("{\n");
            push_indented_body(&mut out, self.code.as_str());
            out.append("}");
        }
        out.append("\n");
        assert(out@ =~= method_code(*self));
        out
    }
}

/// An abstract method with a body fails the precondition of `generate_code`,
/// so it is never rendered; an abstract method with an empty body and valid
/// modifiers is, as its header ended by `;` with no braces.
pub proof fn lemma_abstract_method_body(m: Method)
    requires
        is_abstract(m),
    ensures
        m.code@.len() != 0 ==> !m.can_render(),
        (m.code@.len() == 0 && modifiers_valid(m.modifiers@)) ==> m.can_render() && m.rendered()
            == method_header(m) + ";\n"@,
{
}

} // verus!
