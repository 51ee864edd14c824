use vstd::prelude::*;

use crate::imports::{imports_code, Import};
use crate::modifiers::{modifiers_are_valid, modifiers_code, modifiers_valid, AccessModifiers};
use crate::Codegen;

verus! {

/// A Java enum whose constants are `NAME(args)` pairs, in order.
pub struct JavaEnum {
    pub enum_types: Vec<(String, String)>,
    pub enum_name: String,
    pub modifiers: Vec<AccessModifiers>,
    pub package: String,
    pub imports: Vec<Import>,
}

/// The line of the constant at index `k`: a tab, `NAME(args)`, then `;` for
/// the last constant and `,` for every other one, and a newline.
pub open spec fn constant_line(ts: Seq<(String, String)>, k: int) -> Seq<char> {
    "\t"@ + ts[k].0@ + "("@ + ts[k].1@ + ")"@ + (if k == ts.len() - 1 {
        ";"@
    } else {
        ","@
    }) + "\n"@
}

/// The lines of the first `n` constants.
pub open spec fn constant_lines(ts: Seq<(String, String)>, n: int) -> Seq<char>
    decreases n,
{
    if n <= 0 {
        Seq::empty()
    } else {
        constant_lines(ts, n - 1) + constant_line(ts, n - 1)
    }
}

/// The package, the imports, a blank line, the modifiers, `enum Name { `,
/// one line per constant, a blank line and `}`.
pub open spec fn enum_code(e: JavaEnum) -> Seq<char> {
    "package "@ + e.package@ + ";\n"@ + imports_code(e.imports@) + "\n"@ + modifiers_code(
        e.modifiers@,
    ) + "enum "@ + e.enum_name@ + " { \n"@ + constant_lines(e.enum_types@, e.enum_types@.len() as int)
        + "\n"@ + "}"@
}

impl JavaEnum {
    pub fn new(enum_name: String, package_name: String) -> (r: Self)
        ensures
            r.enum_name@ == enum_name@,
            r.package@ == package_name@,
            r.enum_types@.len() == 0,
            r.modifiers@.len() == 0,
            r.imports@.len() == 0,
    {
        JavaEnum {
            enum_types: Vec::new(),
            modifiers: Vec::new(),
            imports: Vec::new(),
            package: package_name,
            enum_name,
        }
    }

    /// Appends constants, in order.
    pub fn types(self, enum_types: Vec<(String, String)>) -> (r: Self)
        ensures
            r == (JavaEnum { enum_types: r.enum_types, ..self }),
            r.enum_types@ == self.enum_types@ + enum_types@,
    {
        let mut e = self;
        let mut extra = enum_types;
        e.enum_types.append(&mut extra);
        e
    }

    fn add_modifier(self, m: AccessModifiers) -> (r: Self)
        ensures
            r == (JavaEnum { modifiers: r.modifiers, ..self }),
            r.modifiers@ == self.modifiers@.push(m),
    {
        let mut e = self;
        e.modifiers.push(m);
        e
    }

    pub fn public(self) -> (r: Self)
        ensures
            r == (JavaEnum { modifiers: r.modifiers, ..self }),
            r.modifiers@ == self.modifiers@.push(AccessModifiers::Public),
    {
        self.add_modifier(AccessModifiers::Public)
    }

    pub fn protected(self) -> (r: Self)
        ensures
            r == (JavaEnum { modifiers: r.modifiers, ..self }),
            r.modifiers@ == self.modifiers@.push(AccessModifiers::Protected),
    {
        self.add_modifier(AccessModifiers::Protected)
    }

    pub fn private(self) -> (r: Self)
        ensures
            r == (JavaEnum { modifiers: r.modifiers, ..self }),
            r.modifiers@ == self.modifiers@.push(AccessModifiers::Private),
    {
        self.add_modifier(AccessModifiers::Private)
    }

    pub fn static_(self) -> (r: Self)
        ensures
            r == (JavaEnum { modifiers: r.modifiers, ..self }),
            r.modifiers@ == self.modifiers@.push(AccessModifiers::Static),
    {
        self.add_modifier(AccessModifiers::Static)
    }

    pub fn final_(self) -> (r: Self)
        ensures
            r == (JavaEnum { modifiers: r.modifiers, ..self }),
            r.modifiers@ == self.modifiers@.push(AccessModifiers::Final),
    {
        self.add_modifier(AccessModifiers::Final)
    }

    pub fn abstract_(self) -> (r: Self)
        ensures
            r == (JavaEnum { modifiers: r.modifiers, ..self }),
            r.modifiers@ == self.modifiers@.push(AccessModifiers::Abstract),
    {
        self.add_modifier(AccessModifiers::Abstract)
    }

    /// Appends modifiers, in order.
    pub fn modifiers(self, modifiers: Vec<AccessModifiers>) -> (r: Self)
        ensures
            r == (JavaEnum { modifiers: r.modifiers, ..self }),
            r.modifiers@ == self.modifiers@ + modifiers@,
    {
        let mut e = self;
        let mut extra = modifiers;
        e.modifiers.append(&mut extra);
        e
    }

    /// Appends imports, in order.
    pub fn imports(self, imports: Vec<Import>) -> (r: Self)
        ensures
            r == (JavaEnum { imports: r.imports, ..self }),
            r.imports@ == self.imports@ + imports@,
    {
        let mut e = self;
        let mut extra = imports;
        e.imports.append(&mut extra);
        e
    }

    /// Whether this enum can be rendered.
    pub fn is_valid(&self) -> (r: bool)
        ensures
            r == modifiers_valid(self.modifiers@),
    {
        modifiers_are_valid(&self.modifiers)
    }
}

impl Codegen for JavaEnum {
    open spec fn can_render(&self) -> bool {
        modifiers_valid(self.modifiers@)
    }

    open spec fn rendered(&self) -> Seq<char> {
        enum_code(*self)
    }

    fn generate_code(&self) -> (r: String) {
        let mut out = String::new();
        out.append("package ");
        out.append(self.package.as_str());
        out.append(";\n");
        let imps = self.imports.generate_code();
        out.append(imps.as_str());
        out.append("\n");
        let mods = self.modifiers.generate_code();
        out.append(mods.as_str());
        out.append("enum ");
        out.append(self.enum_name.as_str());
        out.append(" { \n");
        let ghost start = out@;
        let ghost ts = self.enum_types@;
        let n = self.enum_types.len();
        let mut k: usize = 0;
        while k < n
            invariant
                n == ts.len(),
                ts == self.enum_types@,
                0 <= k <= n,
                out@ == start + constant_lines(ts, k as int),
            decreases n - k,
        {
            out.append("\t");
            out.append(self.enum_types[k].0.as_str());
            out.append("(");
            out.append(self.enum_types[k].1.as_str());
            out.append(")");
            if k == n - 1 {
                out.append(";");
            } else {
                out.append(",");
            }
            out.append("\n");
            assert(out@ =~= start + constant_lines(ts, k as int + 1));
            k = k + 1;
        }
        out.append("\n");
        out.append("}");
        assert(out@ =~= enum_code(*self));
        out
    }
}

} // verus!
