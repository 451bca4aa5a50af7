use vstd::prelude::*;

use crate::error::PrettyError;
use crate::paths::{
    join, join_spec, opt_view, parent_of, path_file_stem, path_is_dir, path_parent, stem_of,
};

verus! {

/// The resolved set of runtime options. Paths are held as text.
#[derive(Debug, Clone)]
pub struct Config {
    pub input_path: Option<String>,
    pub output_dir: String,
    pub output_file_name: String,
    pub config_dir: String,
    pub config_file: String,
    pub title: String,
    pub font: String,
    pub author: Option<String>,
    pub logo: Option<String>,
    pub toc_title: String,
    pub toc_subtitle: Option<String>,
    pub show: bool,
    pub keep: bool,
    pub domain: Option<String>,
    pub document_id: Option<String>,
    pub hedgedoc: bool,
}

/// The values that the command line may supply; `None` and `false` mean "not given".
#[derive(Debug, Clone)]
pub struct CliArgs {
    pub input_path: Option<String>,
    pub output_path: Option<String>,
    pub show: bool,
    pub hedgedoc: bool,
    pub domain: Option<String>,
    pub document_id: Option<String>,
    pub keep: bool,
}

/// Text merge: `a` unless it is empty.
pub open spec fn merge_text_spec(a: String, b: String) -> String {
    if a@.len() == 0 { b } else { a }
}

/// Optional merge: `a` if present.
pub open spec fn merge_opt_spec(a: Option<String>, b: Option<String>) -> Option<String> {
    if a is Some { a } else { b }
}

/// Keeps `a` unless it is empty, in which case `b` is taken.
pub fn merge_text(a: &String, b: &String) -> (r: String)
    ensures
        r == merge_text_spec(*a, *b),
{
    if a.as_str().is_empty() {
        b.clone()
    } else {
        a.clone()
    }
}

/// Keeps `a` if it is present, else takes `b`.
pub fn merge_opt(a: &Option<String>, b: &Option<String>) -> (r: Option<String>)
    ensures
        r == merge_opt_spec(*a, *b),
{
    match a {
        Some(s) => Some(s.clone()),
        None => match b {
            Some(s) => Some(s.clone()),
            None => None,
        },
    }
}

/// The default base name of generated artifacts.
pub open spec fn default_file_name() -> Seq<char> {
    "pretty"@
}

impl Config {
    /// The field-by-field merge in which `hi` takes precedence and `lo` fills gaps.
    pub open spec fn merge_spec(hi: Config, lo: Config) -> Config {
        Config {
            input_path: merge_opt_spec(hi.input_path, lo.input_path),
            output_dir: merge_text_spec(hi.output_dir, lo.output_dir),
            output_file_name: merge_text_spec(hi.output_file_name, lo.output_file_name),
            config_dir: merge_text_spec(hi.config_dir, lo.config_dir),
            config_file: merge_text_spec(hi.config_file, lo.config_file),
            title: merge_text_spec(hi.title, lo.title),
            font: merge_text_spec(hi.font, lo.font),
            author: merge_opt_spec(hi.author, lo.author),
            logo: merge_opt_spec(hi.logo, lo.logo),
            toc_title: merge_text_spec(hi.toc_title, lo.toc_title),
            toc_subtitle: merge_opt_spec(hi.toc_subtitle, lo.toc_subtitle),
            show: hi.show || lo.show,
            keep: hi.keep || lo.keep,
            domain: merge_opt_spec(hi.domain, lo.domain),
            document_id: merge_opt_spec(hi.document_id, lo.document_id),
            hedgedoc: hi.hedgedoc || lo.hedgedoc,
        }
    }

    /// Merges two configurations: `self` takes precedence, `other` fills its gaps.
    pub fn merge(&self, other: &Config) -> (r: Config)
        ensures
            r == Config::merge_spec(*self, *other),
    {
        Config {
            input_path: merge_opt(&self.input_path, &other.input_path),
            output_dir: merge_text(&self.output_dir, &other.output_dir),
            output_file_name: merge_text(&self.output_file_name, &other.output_file_name),
            config_dir: merge_text(&self.config_dir, &other.config_dir),
            config_file: merge_text(&self.config_file, &other.config_file),
            title: merge_text(&self.title, &other.title),
            font: merge_text(&self.font, &other.font),
            author: merge_opt(&self.author, &other.author),
            logo: merge_opt(&self.logo, &other.logo),
            toc_title: merge_text(&self.toc_title, &other.toc_title),
            toc_subtitle: merge_opt(&self.toc_subtitle, &other.toc_subtitle),
            show: self.show || other.show,
            keep: self.keep || other.keep,
            domain: merge_opt(&self.domain, &other.domain),
            document_id: merge_opt(&self.document_id, &other.document_id),
            hedgedoc: self.hedgedoc || other.hedgedoc,
        }
    }

    /// The compiled-in defaults, with configuration files under `config_dir`.
    pub fn with_config_dir(config_dir: &String) -> (r: Config)
        ensures
            r.config_dir == *config_dir,
            r.config_file@ == join_spec(config_dir@, "pretty.yaml"@),
            r.input_path is None,
            r.output_dir@.len() == 0,
            r.output_file_name@ == default_file_name(),
            r.title@ == "Pretty Document"@,
            r.font@ == "Ubuntu"@,
            r.author is None,
            r.logo is None,
            r.toc_title@ == "Table of Contents"@,
            r.toc_subtitle is None,
            !r.show,
            !r.keep,
            r.domain is None,
            r.document_id is None,
            !r.hedgedoc,
    {
        proof {
            reveal_strlit("pretty");
            reveal_strlit("Pretty Document");
            reveal_strlit("Ubuntu");
            reveal_strlit("Table of Contents");
        }
        Config {
            input_path: None,
            output_dir: String::new(),
            output_file_name: String::from_str("pretty"),
            config_dir: config_dir.clone(),
            config_file: join(config_dir, "pretty.yaml"),
            title: String::from_str("Pretty Document"),
            font: String::from_str("Ubuntu"),
            author: None,
            logo: None,
            toc_title: String::from_str("Table of Contents"),
            toc_subtitle: None,
            show: false,
            keep: false,
            domain: None,
            document_id: None,
            hedgedoc: false,
        }
    }

    /// The compiled-in defaults, with `dir` as the configuration directory.
    pub open spec fn is_default(c: Config, dir: Seq<char>) -> bool {
        &&& c.config_dir@ == dir
        &&& c.config_file@ == join_spec(dir, "pretty.yaml"@)
        &&& c.output_file_name@ == default_file_name()
        &&& c.title@ == "Pretty Document"@
        &&& c.font@ == "Ubuntu"@
        &&& c.toc_title@ == "Table of Contents"@
        &&& c.input_path is None && c.output_dir@.len() == 0
        &&& c.author is None && c.logo is None && c.toc_subtitle is None
        &&& !c.show && !c.keep && !c.hedgedoc
        &&& c.domain is None && c.document_id is None
    }

    /// The defaults, given the platform's per-user configuration directory `base`, if it
    /// has one: configuration files then live in its `pretty` directory. Without one this
    /// fails with `ConfigDirNotFound`.
    pub fn from_platform_dir(base: Option<String>) -> (r: Result<Config, PrettyError>)
        ensures
            base is None <==> r == Err::<Config, PrettyError>(PrettyError::ConfigDirNotFound),
            base is Some ==> r is Ok && Config::is_default(r->Ok_0, join_spec(base->Some_0@, "pretty"@)),
    {
        match base {
            Some(b) => {
                let dir = join(&b, "pretty");
                Ok(Config::with_config_dir(&dir))
            },
            None => Err(PrettyError::ConfigDirNotFound),
        }
    }

    /// The defaults, with configuration files in the `pretty` directory under the
    /// platform's per-user configuration directory. Fails with `ConfigDirNotFound` when
    /// the platform has none; which directory that is depends on the environment.
    pub fn new() -> (r: Result<Config, PrettyError>)
        ensures
            r is Err ==> r == Err::<Config, PrettyError>(PrettyError::ConfigDirNotFound),
            r is Ok ==> exists|base: String|
                Config::is_default(r->Ok_0, #[trigger] join_spec(base@, "pretty"@)),
    {
        Config::from_platform_dir(platform_config_dir())
    }

    /// Lays the configuration files over `self`: the persisted file first, then the
    /// working-directory override. A file that is absent or unreadable is `None` and is
    /// skipped. Values from a file take precedence over what it is laid on, except the
    /// configuration directory and file, which were fixed at startup and are kept.
    pub fn load_config(&mut self, persisted: &Option<Config>, local: &Option<Config>)
        ensures
            *final(self) == Config::layered(*old(self), *persisted, *local),
            final(self).config_dir == old(self).config_dir,
            final(self).config_file == old(self).config_file,
    {
        match persisted {
            Some(p) => {
                let mut m = p.merge(self);
                m.config_dir = self.config_dir.clone();
                m.config_file = self.config_file.clone();
                *self = m;
            },
            None => {},
        }
        match local {
            Some(l) => {
                let mut m = l.merge(self);
                m.config_dir = self.config_dir.clone();
                m.config_file = self.config_file.clone();
                *self = m;
            },
            None => {},
        }
    }

    /// `base` with the optional layer `top` laid over it; the configuration directory
    /// and file of `base` stay.
    pub open spec fn overlay(base: Config, top: Option<Config>) -> Config {
        match top {
            Some(t) => Config {
                config_dir: base.config_dir,
                config_file: base.config_file,
                ..Config::merge_spec(t, base)
            },
            None => base,
        }
    }

    /// `base` with the persisted layer and then the local layer laid over it.
    pub open spec fn layered(base: Config, persisted: Option<Config>, local: Option<Config>) -> Config {
        Config::overlay(Config::overlay(base, persisted), local)
    }

    /// Sets the output location from a path that may name a directory or a file (see
    /// `location_spec`); `cwd` is the working directory, if it is known. The resolved
    /// directory must exist (see `commit_output`): otherwise, or when none can be
    /// determined, this fails with `InvalidPath` and leaves the configuration as it was.
    /// Which paths exist is read from the disk.
    pub fn set_output_path(&mut self, output_path: &String, cwd: Option<String>) -> (r: Result<(), PrettyError>)
        ensures
            r is Ok ==> exists|is_dir: bool|
                #[trigger] location_spec(
                    output_path@,
                    is_dir,
                    parent_of(output_path@),
                    stem_of(output_path@),
                    opt_view(cwd),
                ) == Some((final(self).output_dir@, final(self).output_file_name@)),
            r is Ok ==> (Config { output_dir: old(self).output_dir, output_file_name: old(self).output_file_name, ..*final(self) }) == *old(self),
            r is Err ==> *final(self) == *old(self) && r->Err_0 is InvalidPath,
    {
        let is_dir = path_is_dir(output_path);
        let parent = path_parent(output_path);
        let stem = path_file_stem(output_path);
        match output_location(output_path, is_dir, parent, stem, cwd) {
            Ok((dir, name)) => {
                let exists = path_is_dir(&dir);
                self.commit_output(dir, name, exists)
            },
            Err(e) => Err(e),
        }
    }

    /// Takes a resolved output directory and base name where the directory exists;
    /// otherwise fails with `InvalidPath` naming the directory, and changes nothing.
    pub fn commit_output(&mut self, dir: String, name: String, dir_exists: bool) -> (r: Result<(), PrettyError>)
        ensures
            dir_exists ==> r is Ok && *final(self) == (Config { output_dir: dir, output_file_name: name, ..*old(self) }),
            !dir_exists ==> r == Err::<(), PrettyError>(PrettyError::InvalidPath(dir)) && *final(self) == *old(self),
    {
        if dir_exists {
            self.output_dir = dir;
            self.output_file_name = name;
            Ok(())
        } else {
            Err(PrettyError::InvalidPath(dir))
        }
    }

    /// The path of the PDF artifact: the output directory joined with the base name and
    /// the extension `.pdf`.
    pub fn get_output_pdf(&self) -> (r: String)
        ensures
            r@ == join_spec(self.output_dir@, self.output_file_name@ + ".pdf"@),
    {
        let name = self.output_file_name.clone().concat(".pdf");
        join(&self.output_dir, name.as_str())
    }

    /// The path of the preserved Markdown artifact: the output directory joined with the
    /// base name and the extension `.md`.
    pub fn get_output_md(&self) -> (r: String)
        ensures
            r@ == join_spec(self.output_dir@, self.output_file_name@ + ".md"@),
    {
        let name = self.output_file_name.clone().concat(".md");
        join(&self.output_dir, name.as_str())
    }

    /// Lays the values given on the command line over `self`: a given value replaces the
    /// configured one, a value not given leaves it. The output path is not applied here
    /// (see `set_output_path`).
    pub fn apply_cli(&mut self, args: &CliArgs)
        ensures
            *final(self) == (Config {
                input_path: merge_opt_spec(args.input_path, old(self).input_path),
                domain: merge_opt_spec(args.domain, old(self).domain),
                document_id: merge_opt_spec(args.document_id, old(self).document_id),
                show: args.show || old(self).show,
                keep: args.keep || old(self).keep,
                hedgedoc: args.hedgedoc || old(self).hedgedoc,
                ..*old(self)
            }),
    {
        self.input_path = merge_opt(&args.input_path, &self.input_path);
        self.domain = merge_opt(&args.domain, &self.domain);
        self.document_id = merge_opt(&args.document_id, &self.document_id);
        self.show = args.show || self.show;
        self.keep = args.keep || self.keep;
        self.hedgedoc = args.hedgedoc || self.hedgedoc;
    }

    /// Returns the configured config directory.
    pub fn get_config_dir(&self) -> (r: String)
        ensures
            r == self.config_dir,
    {
        self.config_dir.clone()
    }

    /// Sets the input path (a Markdown file).
    pub fn set_input_path(&mut self, input_path: String)
        ensures
            *final(self) == (Config { input_path: Some(input_path), ..*old(self) }),
    {
        self.input_path = Some(input_path);
    }

    /// Returns the configured input path.
    pub fn get_input_path(&self) -> (r: Option<String>)
        ensures
            r == self.input_path,
    {
        match &self.input_path {
            Some(p) => Some(p.clone()),
            None => None,
        }
    }

    /// Returns the configured document title.
    pub fn get_title(&self) -> (r: String)
        ensures
            r == self.title,
    {
        self.title.clone()
    }

    /// Returns the configured author, or the empty string.
    pub fn get_author(&self) -> (r: String)
        ensures
            r@ == (match self.author {
                Some(a) => a@,
                None => Seq::<char>::empty(),
            }),
    {
        match &self.author {
            Some(a) => a.clone(),
            None => String::new(),
        }
    }

    /// Returns the configured title of the table of contents.
    pub fn get_toc_title(&self) -> (r: String)
        ensures
            r == self.toc_title,
    {
        self.toc_title.clone()
    }

    /// Returns the configured font.
    pub fn get_font(&self) -> (r: String)
        ensures
            r == self.font,
    {
        self.font.clone()
    }

    /// Sets the domain of the remote source.
    pub fn set_domain(&mut self, domain: &String)
        ensures
            *final(self) == (Config { domain: Some(*domain), ..*old(self) }),
    {
        self.domain = Some(domain.clone());
    }

    /// Returns the configured domain of the remote source.
    pub fn get_domain(&self) -> (r: Option<String>)
        ensures
            r == self.domain,
    {
        match &self.domain {
            Some(d) => Some(d.clone()),
            None => None,
        }
    }

    /// Sets the identifier of the remote document.
    pub fn set_document_id(&mut self, document_id: &String)
        ensures
            *final(self) == (Config { document_id: Some(*document_id), ..*old(self) }),
    {
        self.document_id = Some(document_id.clone());
    }

    /// Returns the configured identifier of the remote document.
    pub fn get_document_id(&self) -> (r: Option<String>)
        ensures
            r == self.document_id,
    {
        match &self.document_id {
            Some(d) => Some(d.clone()),
            None => None,
        }
    }

    /// Sets whether the source is a remote collaborative-editor instance.
    pub fn set_hedgedoc(&mut self, hedgedoc: bool)
        ensures
            *final(self) == (Config { hedgedoc, ..*old(self) }),
    {
        self.hedgedoc = hedgedoc;
    }

    /// Returns whether the source is a remote collaborative-editor instance.
    pub fn is_hedgedoc(&self) -> (r: bool)
        ensures
            r == self.hedgedoc,
    {
        self.hedgedoc
    }

    /// Sets whether the fetched Markdown is kept.
    pub fn set_keep(&mut self, keep: bool)
        ensures
            *final(self) == (Config { keep, ..*old(self) }),
    {
        self.keep = keep;
    }

    /// Returns whether the fetched Markdown is kept.
    pub fn should_keep(&self) -> (r: bool)
        ensures
            r == self.keep,
    {
        self.keep
    }

    /// Sets whether the PDF is opened after a successful run.
    pub fn set_show(&mut self, show: bool)
        ensures
            *final(self) == (Config { show, ..*old(self) }),
    {
        self.show = show;
    }

    /// Returns whether the PDF is opened after a successful run.
    pub fn should_show(&self) -> (r: bool)
        ensures
            r == self.show,
    {
        self.show
    }
}

/// Where artifacts go for an output path: a directory that exists is taken as it is,
/// with the default base name "pretty"; otherwise the parent (or, when the path has none,
/// the working directory `cwd`) and the path's stem (or "pretty"). `None`
/// when no directory can be determined.
pub open spec fn location_spec(
    path: Seq<char>,
    is_dir: bool,
    parent: Option<Seq<char>>,
    stem: Option<Seq<char>>,
    cwd: Option<Seq<char>>,
) -> Option<(Seq<char>, Seq<char>)> {
    if is_dir {
        Some((path, default_file_name()))
    } else {
        let dir = match parent {
            Some(p) => if p.len() > 0 { Some(p) } else { cwd },
            None => cwd,
        };
        let name = match stem {
            Some(s) => s,
            None => default_file_name(),
        };
        match dir {
            Some(d) => Some((d, name)),
            None => None,
        }
    }
}

/// An output path that names an existing directory resolves to that directory and the
/// base name "pretty", whatever its text's parent and stem are.
pub proof fn lemma_directory_takes_default_name(
    path: Seq<char>,
    parent: Option<Seq<char>>,
    stem: Option<Seq<char>>,
    cwd: Option<Seq<char>>,
)
    ensures
        location_spec(path, true, parent, stem, cwd) == Some((path, default_file_name())),
{
}

/// An output path that is not a directory, with a non-empty parent `dir` and a stem
/// `name`, resolves to `(dir, name)`; the artifacts are then `name.pdf` and `name.md` in
/// `dir`.
pub proof fn lemma_file_takes_parent_and_stem(
    path: Seq<char>,
    dir: Seq<char>,
    name: Seq<char>,
    cwd: Option<Seq<char>>,
)
    requires
        dir.len() > 0,
    ensures
        location_spec(path, false, Some(dir), Some(name), cwd) == Some((dir, name)),
{
}

/// Splits an output path into a directory and a base name, given what the file system
/// and the path's text say of it (see `location_spec`). Fails with `InvalidPath` when no
/// directory can be determined.
pub fn output_location(
    path: &String,
    is_dir: bool,
    parent: Option<String>,
    stem: Option<String>,
    cwd: Option<String>,
) -> (r: Result<(String, String), PrettyError>)
    ensures
        match location_spec(path@, is_dir, opt_view(parent), opt_view(stem), opt_view(cwd)) {
            Some((d, n)) => r is Ok && r->Ok_0.0@ == d && r->Ok_0.1@ == n,
            None => r == Err::<(String, String), PrettyError>(PrettyError::InvalidPath(*path)),
        },
{
    proof {
        reveal_strlit("pretty");
    }
    if is_dir {
        return Ok((path.clone(), String::from_str("pretty")));
    }
    let name = match stem {
        Some(s) => s,
        None => String::from_str("pretty"),
    };
    let dir = match parent {
        Some(p) => if p.as_str().is_empty() { cwd } else { Some(p) },
        None => cwd,
    };
    match dir {
        Some(d) => Ok((d, name)),
        None => Err(PrettyError::InvalidPath(path.clone())),
    }
}

/// Relies on `dirs::config_dir`: the platform's per-user configuration directory, when
/// one is known. Nothing is promised of it, as it depends on the environment.
#[verifier::external_body]
fn platform_config_dir() -> (r: Option<String>) {
    dirs::config_dir().map(|p| p.to_string_lossy().into_owned())
}

/// A field that the higher layer sets is never replaced by the lower layer's value.
pub proof fn lemma_merge_keeps_set_fields(hi: Config, lo: Config)
    ensures
        ({
            let r = Config::merge_spec(hi, lo);
            &&& hi.input_path is Some ==> r.input_path == hi.input_path
            &&& hi.output_dir@.len() > 0 ==> r.output_dir == hi.output_dir
            &&& hi.output_file_name@.len() > 0 ==> r.output_file_name == hi.output_file_name
            &&& hi.config_dir@.len() > 0 ==> r.config_dir == hi.config_dir
            &&& hi.config_file@.len() > 0 ==> r.config_file == hi.config_file
            &&& hi.title@.len() > 0 ==> r.title == hi.title
            &&& hi.font@.len() > 0 ==> r.font == hi.font
            &&& hi.author is Some ==> r.author == hi.author
            &&& hi.logo is Some ==> r.logo == hi.logo
            &&& hi.toc_title@.len() > 0 ==> r.toc_title == hi.toc_title
            &&& hi.toc_subtitle is Some ==> r.toc_subtitle == hi.toc_subtitle
            &&& hi.show ==> r.show
            &&& hi.keep ==> r.keep
            &&& hi.domain is Some ==> r.domain == hi.domain
            &&& hi.document_id is Some ==> r.document_id == hi.document_id
            &&& hi.hedgedoc ==> r.hedgedoc
        }),
{
}

/// A field that the higher layer leaves at its zero value (empty, absent, false) takes
/// the lower layer's value.
pub proof fn lemma_merge_fills_gaps(hi: Config, lo: Config)
    ensures
        ({
            let r = Config::merge_spec(hi, lo);
            &&& hi.input_path is None ==> r.input_path == lo.input_path
            &&& hi.output_dir@.len() == 0 ==> r.output_dir == lo.output_dir
            &&& hi.output_file_name@.len() == 0 ==> r.output_file_name == lo.output_file_name
            &&& hi.config_dir@.len() == 0 ==> r.config_dir == lo.config_dir
            &&& hi.config_file@.len() == 0 ==> r.config_file == lo.config_file
            &&& hi.title@.len() == 0 ==> r.title == lo.title
            &&& hi.font@.len() == 0 ==> r.font == lo.font
            &&& hi.author is None ==> r.author == lo.author
            &&& hi.logo is None ==> r.logo == lo.logo
            &&& hi.toc_title@.len() == 0 ==> r.toc_title == lo.toc_title
            &&& hi.toc_subtitle is None ==> r.toc_subtitle == lo.toc_subtitle
            &&& !hi.show ==> r.show == lo.show
            &&& !hi.keep ==> r.keep == lo.keep
            &&& hi.domain is None ==> r.domain == lo.domain
            &&& hi.document_id is None ==> r.document_id == lo.document_id
            &&& !hi.hedgedoc ==> r.hedgedoc == lo.hedgedoc
        }),
{
}

} // verus!
