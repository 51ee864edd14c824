use vstd::prelude::*;
use vstd::string::StrSliceExecFns;

verus! {

/// The folder layout of a generated Maven project. Folders are relative
/// paths written with `/`.
pub struct OutputDirs {
    pub package_path: String,
    pub output_dir: String,
    pub controllers_suffix: String,
    pub repos_suffix: String,
    pub services_suffix: String,
    pub dtos_suffix: String,
    pub models_suffix: String,
    pub code_folder: String,
}

/// A dotted package name as a folder path: every `.` becomes `/`.
pub open spec fn package_folder(p: Seq<char>) -> Seq<char> {
    p.map_values(|c: char| if c == '.' { '/' } else { c })
}

/// `./out/src/main/java/` followed by the package folders.
pub open spec fn code_folder_of(output_dir: Seq<char>, package_path: Seq<char>) -> Seq<char> {
    "./"@ + output_dir + "/src/main/java/"@ + package_folder(package_path)
}

/// A sub-folder of the code folder.
pub open spec fn code_subfolder(d: OutputDirs, suffix: Seq<char>) -> Seq<char> {
    d.code_folder@ + "/"@ + suffix
}

/// Appends the package path with every `.` turned into `/`.
fn push_package_folder(out: &mut String, p: &str)
    ensures
        final(out)@ == old(out)@ + package_folder(p@),
{
    let ghost start = out@;
    let n = p.unicode_len();
    let mut i: usize = 0;
    while i < n
        invariant
            n == p@.len(),
            0 <= i <= n,
            out@ == start + package_folder(p@.take(i as int)),
        decreases n - i,
    {
        if p.get_char(i) == '.' {
            out.append("/");
            proof {
                reveal_strlit("/");
            }
        } else {
            let piece = p.substring_char(i, i + 1);
            assert(piece@ =~= seq![p@[i as int]]);
            out.append(piece);
        }
        assert(p@.take(i as int + 1) =~= p@.take(i as int).push(p@[i as int]));
        assert(package_folder(p@.take(i as int + 1)) =~= package_folder(p@.take(i as int)).push(
            if p@[i as int] == '.' {
                '/'
            } else {
                p@[i as int]
            },
        ));
        assert(out@ =~= start + package_folder(p@.take(i as int + 1)));
        i = i + 1;
    }
    assert(p@.take(n as int) =~= p@);
}

impl OutputDirs {
    /// The layout for a project in `output_dir` whose code lives in
    /// `package_path`; all sub-folder suffixes start empty.
    pub fn new(output_dir: String, package_path: String) -> (r: Self)
        ensures
            r.output_dir@ == output_dir@,
            r.package_path@ == package_path@,
            r.code_folder@ == code_folder_of(output_dir@, package_path@),
            r.dtos_suffix@.len() == 0,
            r.repos_suffix@.len() == 0,
            r.controllers_suffix@.len() == 0,
            r.services_suffix@.len() == 0,
            r.models_suffix@.len() == 0,
    {
        let mut code_folder = String::from_str("./");
        code_folder.append(output_dir.as_str());
        code_folder.append("/src/main/java/");
        push_package_folder(&mut code_folder, package_path.as_str());
        Self {
            package_path,
            output_dir,
            code_folder,
            dtos_suffix: String::new(),
            repos_suffix: String::new(),
            controllers_suffix: String::new(),
            services_suffix: String::new(),
            models_suffix: String::new(),
        }
    }

    pub fn dtos(self, suffix: String) -> (r: Self)
        ensures
            r == (OutputDirs { dtos_suffix: suffix, ..self }),
    {
        OutputDirs { dtos_suffix: suffix, ..self }
    }

    pub fn repos(self, suffix: String) -> (r: Self)
        ensures
            r == (OutputDirs { repos_suffix: suffix, ..self }),
    {
        OutputDirs { repos_suffix: suffix, ..self }
    }

    pub fn controllers(self, suffix: String) -> (r: Self)
        ensures
            r == (OutputDirs { controllers_suffix: suffix, ..self }),
    {
        OutputDirs { controllers_suffix: suffix, ..self }
    }

    pub fn services(self, suffix: String) -> (r: Self)
        ensures
            r == (OutputDirs { services_suffix: suffix, ..self }),
    {
        OutputDirs { services_suffix: suffix, ..self }
    }

    pub fn models(self, suffix: String) -> (r: Self)
        ensures
            r == (OutputDirs { models_suffix: suffix, ..self }),
    {
        OutputDirs { models_suffix: suffix, ..self }
    }

    /// The folder that holds the root package.
    pub fn code_folder(&self) -> (r: &String)
        ensures
            r == &self.code_folder,
    {
        &self.code_folder
    }

    fn subfolder(&self, suffix: &String) -> (r: String)
        ensures
            r@ == self.code_folder@ + "/"@ + suffix@,
    {
        let mut out = self.code_folder.clone();
        out.append("/");
        out.append(suffix.as_str());
        out
    }

    pub fn controllers_folder(&self) -> (r: String)
        ensures
            r@ == code_subfolder(*self, self.controllers_suffix@),
    {
        self.subfolder(&self.controllers_suffix)
    }

    pub fn models_folder(&self) -> (r: String)
        ensures
            r@ == code_subfolder(*self, self.models_suffix@),
    {
        self.subfolder(&self.models_suffix)
    }

    pub fn services_folder(&self) -> (r: String)
        ensures
            r@ == code_subfolder(*self, self.services_suffix@),
    {
        self.subfolder(&self.services_suffix)
    }

    pub fn repos_folder(&self) -> (r: String)
        ensures
            r@ == code_subfolder(*self, self.repos_suffix@),
    {
        self.subfolder(&self.repos_suffix)
    }

    pub fn dtos_folder(&self) -> (r: String)
        ensures
            r@ == code_subfolder(*self, self.dtos_suffix@),
    {
        self.subfolder(&self.dtos_suffix)
    }

    /// `./out/src/test/java/` followed by the package folders.
    pub fn tests_folder(&self) -> (r: String)
        ensures
            r@ == "./"@ + self.output_dir@ + "/src/test/java/"@ + package_folder(self.package_path@),
    {
        let mut out = String::from_str("./");
        out.append(self.output_dir.as_str());
        out.append("/src/test/java/");
        push_package_folder(&mut out, self.package_path.as_str());
        out
    }

    /// `./out/src/main/resources`.
    pub fn resources_folder(&self) -> (r: String)
        ensures
            r@ == "./"@ + self.output_dir@ + "/src/main/resources"@,
    {
        let mut out = String::from_str("./");
        out.append(self.output_dir.as_str());
        out.append("/src/main/resources");
        out
    }
}

} // verus!
