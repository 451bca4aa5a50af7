use vstd::prelude::*;

use crate::config::Config;
use crate::error::{CompilationError, DownloadError, PrettyError};
use crate::paths::{join, join_spec};

verus! {

/// One run of the external converter: its inputs and the presentation options.
#[derive(Debug, Clone)]
pub struct ConvertJob {
    pub input: String,
    pub output_pdf: String,
    pub template: String,
    pub font: String,
    pub title: String,
    pub toc_title: String,
}

/// The converter run that `c` calls for, with `input` as the source.
pub open spec fn job_for(job: ConvertJob, c: Config, input: Seq<char>) -> bool {
    &&& job.input@ == input
    &&& job.output_pdf@ == join_spec(c.output_dir@, c.output_file_name@ + ".pdf"@)
    &&& job.template@ == join_spec(c.config_dir@, "template.tex"@)
    &&& job.font@ == c.font@
    &&& job.title@ == c.title@
    &&& job.toc_title@ == c.toc_title@
}

/// The converter run for the configured input. Fails with `FileNotFound` when no input
/// is configured.
pub fn conversion(config: &Config) -> (r: Result<ConvertJob, CompilationError>)
    ensures
        match config.input_path {
            Some(p) => r is Ok && job_for(r->Ok_0, *config, p@),
            None => r == Err::<ConvertJob, CompilationError>(CompilationError::FileNotFound),
        },
{
    match &config.input_path {
        Some(p) => {
            let template = join(&config.config_dir, "template.tex");
            Ok(ConvertJob {
                input: p.clone(),
                output_pdf: config.get_output_pdf(),
                template,
                font: config.font.clone(),
                title: config.title.clone(),
                toc_title: config.toc_title.clone(),
            })
        },
        None => Err(CompilationError::FileNotFound),
    }
}

/// The arguments of the converter for a job, in order.
pub open spec fn arguments_spec(job: ConvertJob) -> Seq<Seq<char>> {
    seq![
        job.input@,
        "-f"@,
        "markdown"@,
        "-t"@,
        "pdf"@,
        "--template="@ + job.template@,
        "-V"@,
        "mainfont="@ + job.font@,
        "-V"@,
        "title:"@ + job.title@,
        "-V"@,
        "toc-title:"@ + job.toc_title@,
        "--pdf-engine=xelatex"@,
        "-o"@,
        job.output_pdf@,
    ]
}

impl ConvertJob {
    /// The command-line arguments that run the converter on this job.
    pub fn arguments(&self) -> (r: Vec<String>)
        ensures
            r@.map_values(|s: String| s@) == arguments_spec(*self),
    {
        let mut r: Vec<String> = Vec::new();
        r.push(self.input.clone());
        r.push(String::from_str("-f"));
        r.push(String::from_str("markdown"));
        r.push(String::from_str("-t"));
        r.push(String::from_str("pdf"));
        r.push(String::from_str("--template=").concat(self.template.as_str()));
        r.push(String::from_str("-V"));
        r.push(String::from_str("mainfont=").concat(self.font.as_str()));
        r.push(String::from_str("-V"));
        r.push(String::from_str("title:").concat(self.title.as_str()));
        r.push(String::from_str("-V"));
        r.push(String::from_str("toc-title:").concat(self.toc_title.as_str()));
        r.push(String::from_str("--pdf-engine=xelatex"));
        r.push(String::from_str("-o"));
        r.push(self.output_pdf.clone());
        assert(r@.map_values(|s: String| s@) =~= arguments_spec(*self));
        r
    }
}

/// The address of a remote document's Markdown download.
pub fn download_url(domain: &String, document_id: &String) -> (r: String)
    ensures
        r@ == domain@ + "/"@ + document_id@ + "/download"@,
{
    domain.clone().concat("/").concat(document_id.as_str()).concat("/download")
}

/// Accepts a response status in the success range 200 to 299; any other fails with
/// `StatusCode` carrying it.
pub fn check_status(code: u16) -> (r: Result<(), DownloadError>)
    ensures
        200 <= code <= 299 ==> r is Ok,
        !(200 <= code <= 299) ==> r == Err::<(), DownloadError>(DownloadError::StatusCode(code)),
{
    if 200 <= code && code <= 299 {
        Ok(())
    } else {
        Err(DownloadError::StatusCode(code))
    }
}

/// Where a run stands.
#[derive(Debug, Clone, Copy, PartialEq, Eq, Structural)]
pub enum Stage {
    /// Configuration resolved and assets in place; nothing decided yet.
    Ready,
    /// Waiting for the remote document to be fetched.
    Fetching,
    /// Waiting for the converter.
    Converting,
    /// Waiting for the fetched Markdown to be copied beside the PDF.
    Preserving,
    /// Waiting for the PDF to be opened.
    Opening,
    /// Finished without error.
    Done,
    /// Finished with an error.
    Failed,
}

/// What the caller is to do next, and then report back with its outcome.
#[derive(Debug, Clone)]
pub enum Action {
    /// Fetch `url` and write the body to `dest`.
    Fetch { url: String, dest: String },
    /// Run the converter.
    Convert(ConvertJob),
    /// Copy the file `from` to `to`.
    Preserve { from: String, to: String },
    /// Open the PDF at `pdf` in a viewer.
    Open { pdf: String },
    /// The run is over; the note, if any, says why nothing was produced.
    Finish(Option<String>),
    /// The run failed.
    Fail(PrettyError),
}

/// A single run, from a resolved configuration to its end.
#[derive(Debug, Clone)]
pub struct Pipeline {
    pub config: Config,
    pub stage: Stage,
    /// The local file that a fetched document is written to.
    pub temp_file: String,
}

/// The step after the PDF exists (and the Markdown was kept, where asked): open the PDF
/// where `show` asks for it, else finish.
pub open spec fn after_output(c: Config, a: Action, s: Stage) -> bool {
    if c.show {
        &&& a is Open
        &&& a->pdf@ == join_spec(c.output_dir@, c.output_file_name@ + ".pdf"@)
        &&& s == Stage::Opening
    } else {
        a == Action::Finish(None) && s == Stage::Done
    }
}

impl Pipeline {
    /// The run waits for the outcome of an action.
    pub open spec fn is_waiting(self) -> bool {
        self.stage is Fetching || self.stage is Converting || self.stage is Preserving
            || self.stage is Opening
    }

    /// A run over `config` that writes a fetched document to `temp_file`.
    pub fn new(config: Config, temp_file: String) -> (r: Pipeline)
        ensures
            r.config == config,
            r.temp_file == temp_file,
            r.stage == Stage::Ready,
    {
        Pipeline { config, stage: Stage::Ready, temp_file }
    }

    /// Chooses the source. A remote source needs both a domain and a document id: with
    /// both the document is fetched; without either the run ends at once, with a note and
    /// no error, and the note says which is missing (the domain where both are). A local
    /// source needs an input path: with it the converter runs, without
    /// it the run fails.
    pub fn start(&mut self) -> (a: Action)
        requires
            old(self).stage == Stage::Ready,
        ensures
            final(self).config == old(self).config,
            final(self).temp_file == old(self).temp_file,
            ({
                let c = old(self).config;
                if c.hedgedoc {
                    if c.domain is Some && c.document_id is Some {
                        &&& a is Fetch
                        &&& a->url@ == c.domain->Some_0@ + "/"@ + c.document_id->Some_0@ + "/download"@
                        &&& a->dest == old(self).temp_file
                        &&& final(self).stage == Stage::Fetching
                    } else if c.domain is None {
                        &&& a is Finish && a->Finish_0 is Some
                        &&& a->Finish_0->Some_0@ == "No domain of hedgedoc instance given."@
                        &&& final(self).stage == Stage::Done
                    } else {
                        &&& a is Finish && a->Finish_0 is Some
                        &&& a->Finish_0->Some_0@ == "No document id given."@
                        &&& final(self).stage == Stage::Done
                    }
                } else {
                    match c.input_path {
                        Some(p) => a is Convert && job_for(a->Convert_0, c, p@)
                            && final(self).stage == Stage::Converting,
                        None => a == Action::Fail(PrettyError::Compilation(CompilationError::FileNotFound))
                            && final(self).stage == Stage::Failed,
                    }
                }
            }),
    {
        if self.config.hedgedoc {
            match (&self.config.domain, &self.config.document_id) {
                (Some(domain), Some(id)) => {
                    let url = download_url(domain, id);
                    self.stage = Stage::Fetching;
                    Action::Fetch { url, dest: self.temp_file.clone() }
                },
                (None, _) => {
                    self.stage = Stage::Done;
                    Action::Finish(Some(String::from_str("No domain of hedgedoc instance given.")))
                },
                (_, None) => {
                    self.stage = Stage::Done;
                    Action::Finish(Some(String::from_str("No document id given.")))
                },
            }
        } else {
            match conversion(&self.config) {
                Ok(job) => {
                    self.stage = Stage::Converting;
                    Action::Convert(job)
                },
                Err(e) => {
                    self.stage = Stage::Failed;
                    Action::Fail(PrettyError::Compilation(e))
                },
            }
        }
    }

    /// Takes the outcome of the last action and says what comes next. Any failure ends
    /// the run with that error. A fetched document becomes the input and is converted;
    /// after a conversion the fetched Markdown is copied beside the PDF where `keep` asks
    /// for it and the source was remote; then the PDF is opened where `show` asks for it.
    pub fn advance(&mut self, outcome: Result<(), PrettyError>) -> (a: Action)
        requires
            old(self).is_waiting(),
        ensures
            final(self).temp_file == old(self).temp_file,
            ({
                let c = old(self).config;
                match outcome {
                    Err(e) => a == Action::Fail(e) && final(self).stage == Stage::Failed
                        && final(self).config == c,
                    Ok(_) => match old(self).stage {
                        Stage::Fetching => {
                            &&& final(self).config == (Config { input_path: Some(old(self).temp_file), ..c })
                            &&& a is Convert
                            &&& job_for(a->Convert_0, final(self).config, old(self).temp_file@)
                            &&& final(self).stage == Stage::Converting
                        },
                        Stage::Converting => {
                            &&& final(self).config == c
                            &&& if c.hedgedoc && c.keep {
                                &&& a is Preserve
                                &&& a->from == old(self).temp_file
                                &&& a->to@ == join_spec(c.output_dir@, c.output_file_name@ + ".md"@)
                                &&& final(self).stage == Stage::Preserving
                            } else {
                                after_output(c, a, final(self).stage)
                            }
                        },
                        Stage::Preserving => final(self).config == c
                            && after_output(c, a, final(self).stage),
                        _ => final(self).config == c && a == Action::Finish(None)
                            && final(self).stage == Stage::Done,
                    },
                }
            }),
    {
        match outcome {
            Err(e) => {
                self.stage = Stage::Failed;
                Action::Fail(e)
            },
            Ok(()) => match self.stage {
                Stage::Fetching => {
                    self.config.set_input_path(self.temp_file.clone());
                    match conversion(&self.config) {
                        Ok(job) => {
                            self.stage = Stage::Converting;
                            Action::Convert(job)
                        },
                        Err(e) => {
                            self.stage = Stage::Failed;
                            Action::Fail(PrettyError::Compilation(e))
                        },
                    }
                },
                Stage::Converting => {
                    if self.config.hedgedoc && self.config.keep {
                        self.stage = Stage::Preserving;
                        Action::Preserve { from: self.temp_file.clone(), to: self.config.get_output_md() }
                    } else {
                        self.after_output()
                    }
                },
                Stage::Preserving => self.after_output(),
                _ => {
                    self.stage = Stage::Done;
                    Action::Finish(None)
                },
            },
        }
    }

    fn after_output(&mut self) -> (a: Action)
        ensures
            final(self).config == old(self).config,
            final(self).temp_file == old(self).temp_file,
            after_output(old(self).config, a, final(self).stage),
    {
        if self.config.show {
            self.stage = Stage::Opening;
            Action::Open { pdf: self.config.get_output_pdf() }
        } else {
            self.stage = Stage::Done;
            Action::Finish(None)
        }
    }
}

} // verus!
