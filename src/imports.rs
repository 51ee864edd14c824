use vstd::prelude::*;

use crate::Codegen;

verus! {

/// An import of `class_name` from `package_name`, possibly static.
#[derive(Clone)]
pub struct Import {
    pub class_name: String,
    pub package_name: String,
    pub static_import: bool,
}

/// `import pkg.Class;\n`, or `import static pkg.Class;\n`.
pub open spec fn import_code(i: Import) -> Seq<char> {
    (if i.static_import {
        "import static "@
    } else {
        "import "@
    }) + i.package_name@ + "."@ + i.class_name@ + ";\n"@
}

/// The imports one after another.
pub open spec fn import_lines(s: Seq<Import>) -> Seq<char>
    decreases s.len(),
{
    if s.len() == 0 {
        Seq::empty()
    } else {
        import_lines(s.drop_last()) + import_code(s.last())
    }
}

/// An import list renders as a newline followed by every import, in order,
/// duplicates included.
pub open spec fn imports_code(s: Seq<Import>) -> Seq<char> {
    "\n"@ + import_lines(s)
}

impl Import {
    pub fn new(package_name: String, class_name: String) -> (r: Self)
        ensures
            r.package_name@ == package_name@,
            r.class_name@ == class_name@,
            !r.static_import,
    {
        Self { class_name, package_name, static_import: false }
    }

    /// Makes this a static import.
    pub fn static_(self) -> (r: Self)
        ensures
            r.package_name == self.package_name,
            r.class_name == self.class_name,
            r.static_import,
    {
        Import { static_import: true, ..self }
    }
}

impl Codegen for Import {
    open spec fn can_render(&self) -> bool {
        true
    }

    open spec fn rendered(&self) -> Seq<char> {
        import_code(*self)
    }

    fn generate_code(&self) -> (r: String) {
        let mut out = String::new();
        if self.static_import {
            out.append("import static ");
        } else {
            out.append("import ");
        }
        out.append(self.package_name.as_str());
        out.append(".");
        out.append(self.class_name.as_str());
        out.append(";\n");
        out
    }
}

impl Codegen for Vec<Import> {
    open spec fn can_render(&self) -> bool {
        true
    }

    open spec fn rendered(&self) -> Seq<char> {
        imports_code(self@)
    }

    fn generate_code(&self) -> (r: String) {
        let mut out = String::new();
        out.append("\n");
        let ghost start = out@;
        let mut i: usize = 0;
        while i < self.len()
            invariant
                0 <= i <= self.len(),
                out@ == start + import_lines(self@.take(i as int)),
            decreases self.len() - i,
        {
            let code = self[i].generate_code();
            out.append(code.as_str());
            proof {
                let t = self@.take(i as int + 1);
                assert(t.drop_last() =~= self@.take(i as int));
                assert(out@ =~= start + import_lines(t));
            }
            i = i + 1;
        }
        assert(self@.take(self.len() as int) =~= self@);
        out
    }
}

} // verus!
