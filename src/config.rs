use vstd::prelude::*;

verus! {

/// The default window capacity: pages held in memory at once.
pub const DEFAULT_PAGES_NUM_IN_MEMORY: u16 = 25;

/// Where documents are read from and where images are written to.
pub struct IO {
    input: String,
    output: String,
}

impl IO {
    pub fn new(input: String, output: String) -> (r: IO)
        ensures
            r.input_spec() == input@,
            r.output_spec() == output@,
    {
        IO { input, output }
    }

    pub closed spec fn input_spec(&self) -> Seq<char> {
        self.input@
    }

    pub closed spec fn output_spec(&self) -> Seq<char> {
        self.output@
    }

    pub fn input(&self) -> (r: &str)
        ensures
            r@ == self.input_spec(),
    {
        self.input.as_str()
    }

    pub fn output(&self) -> (r: &str)
        ensures
            r@ == self.output_spec(),
    {
        self.output.as_str()
    }
}

/// The encodings that output images can be written in.
#[derive(Clone, Copy, Debug, PartialEq, Eq, Structural)]
pub enum PdfImageFormat {
    Png,
    Jpeg,
    Webp,
}

/// The per-page target policy: explicit size, DPI source, output format and filters.
pub struct Target {
    width: Option<i32>,
    height: Option<i32>,
    format: PdfImageFormat,
    original_image_size: bool,
    normalize_image: bool,
    threshold_image: bool,
}

/// An explicit dimension, when present, is positive.
pub open spec fn dimension_ok(d: Option<i32>) -> bool {
    match d {
        Some(v) => v > 0,
        None => true,
    }
}

impl Target {
    /// Builds a target policy; `None` when an explicit width or height is not positive.
    pub fn new(
        width: Option<i32>,
        height: Option<i32>,
        format: PdfImageFormat,
        original_image_size: bool,
        normalize_image: bool,
        threshold_image: bool,
    ) -> (r: Option<Target>)
        ensures
            r.is_none() <==> !(dimension_ok(width) && dimension_ok(height)),
            r matches Some(t) ==> {
                &&& t.wf()
                &&& t.width_spec() == width
                &&& t.height_spec() == height
                &&& t.format_spec() == format
                &&& t.original_image_size_spec() == original_image_size
                &&& t.normalize_image_spec() == normalize_image
                &&& t.threshold_image_spec() == threshold_image
            },
    {
        let width_ok = match width {
            Some(v) => v > 0,
            None => true,
        };
        let height_ok = match height {
            Some(v) => v > 0,
            None => true,
        };
        if width_ok && height_ok {
            Some(Target { width, height, format, original_image_size, normalize_image, threshold_image })
        } else {
            None
        }
    }

    pub open spec fn wf(&self) -> bool {
        dimension_ok(self.width_spec()) && dimension_ok(self.height_spec())
    }

    pub closed spec fn width_spec(&self) -> Option<i32> {
        self.width
    }

    pub closed spec fn height_spec(&self) -> Option<i32> {
        self.height
    }

    pub closed spec fn format_spec(&self) -> PdfImageFormat {
        self.format
    }

    pub closed spec fn original_image_size_spec(&self) -> bool {
        self.original_image_size
    }

    pub closed spec fn normalize_image_spec(&self) -> bool {
        self.normalize_image
    }

    pub closed spec fn threshold_image_spec(&self) -> bool {
        self.threshold_image
    }

    pub fn width(&self) -> (r: Option<i32>)
        ensures
            r == self.width_spec(),
    {
        self.width
    }

    pub fn height(&self) -> (r: Option<i32>)
        ensures
            r == self.height_spec(),
    {
        self.height
    }

    pub fn image_format(&self) -> (r: PdfImageFormat)
        ensures
            r == self.format_spec(),
    {
        self.format
    }

    pub fn original_image_size(&self) -> (r: bool)
        ensures
            r == self.original_image_size_spec(),
    {
        self.original_image_size
    }

    pub fn normalize_image(&self) -> (r: bool)
        ensures
            r == self.normalize_image_spec(),
    {
        self.normalize_image
    }

    pub fn threshold_image(&self) -> (r: bool)
        ensures
            r == self.threshold_image_spec(),
    {
        self.threshold_image
    }
}

/// The look of the progress bars: templates and fill characters for the
/// per-run bar and for the nested per-document bar.
pub struct Progress {
    template: String,
    nested_template: String,
    chars: String,
    nested_chars: String,
}

impl Progress {
    pub fn new(template: String, nested_template: String, chars: String, nested_chars: String) -> (r: Progress)
        ensures
            r.template_spec() == template@,
            r.nested_template_spec() == nested_template@,
            r.chars_spec() == chars@,
            r.nested_chars_spec() == nested_chars@,
    {
        Progress { template, nested_template, chars, nested_chars }
    }

    pub closed spec fn template_spec(&self) -> Seq<char> {
        self.template@
    }

    pub closed spec fn nested_template_spec(&self) -> Seq<char> {
        self.nested_template@
    }

    pub closed spec fn chars_spec(&self) -> Seq<char> {
        self.chars@
    }

    pub closed spec fn nested_chars_spec(&self) -> Seq<char> {
        self.nested_chars@
    }

    pub fn template(&self) -> (r: &str)
        ensures
            r@ == self.template_spec(),
    {
        self.template.as_str()
    }

    pub fn nested_template(&self) -> (r: &str)
        ensures
            r@ == self.nested_template_spec(),
    {
        self.nested_template.as_str()
    }

    pub fn chars(&self) -> (r: &str)
        ensures
            r@ == self.chars_spec(),
    {
        self.chars.as_str()
    }

    pub fn nested_chars(&self) -> (r: &str)
        ensures
            r@ == self.nested_chars_spec(),
    {
        self.nested_chars.as_str()
    }
}

/// The whole configuration of a run.
pub struct Config {
    io: IO,
    target: Target,
    progress: Progress,
    number_of_pages_in_memory: u16,
}

impl Config {
    /// Builds a configuration; `None` when the target policy is not well formed
    /// or the window capacity is zero.
    pub fn new(io: IO, target: Target, progress: Progress, number_of_pages_in_memory: u16) -> (r: Option<Config>)
        ensures
            r.is_none() <==> (!target.wf() || number_of_pages_in_memory == 0),
            r matches Some(c) ==> {
                &&& c.wf()
                &&& c.io_spec() == io
                &&& c.target_spec() == target
                &&& c.progress_spec() == progress
                &&& c.number_of_pages_in_memory_spec() == number_of_pages_in_memory
            },
    {
        let target_ok = match target.width() {
            Some(v) => v > 0,
            None => true,
        } && match target.height() {
            Some(v) => v > 0,
            None => true,
        };
        if target_ok && number_of_pages_in_memory > 0 {
            proof {
                assert(target.wf());
            }
            Some(Config { io, target, progress, number_of_pages_in_memory })
        } else {
            None
        }
    }

    pub open spec fn wf(&self) -> bool {
        self.target_spec().wf() && self.number_of_pages_in_memory_spec() >= 1
    }

    pub closed spec fn io_spec(&self) -> IO {
        self.io
    }

    pub closed spec fn target_spec(&self) -> Target {
        self.target
    }

    pub closed spec fn progress_spec(&self) -> Progress {
        self.progress
    }

    pub closed spec fn number_of_pages_in_memory_spec(&self) -> u16 {
        self.number_of_pages_in_memory
    }

    pub fn io(&self) -> (r: &IO)
        ensures
            *r == self.io_spec(),
    {
        &self.io
    }

    pub fn target(&self) -> (r: &Target)
        ensures
            *r == self.target_spec(),
    {
        &self.target
    }

    pub fn progress(&self) -> (r: &Progress)
        ensures
            *r == self.progress_spec(),
    {
        &self.progress
    }

    pub fn number_of_pages_in_memory(&self) -> (r: u16)
        ensures
            r == self.number_of_pages_in_memory_spec(),
    {
        self.number_of_pages_in_memory
    }
}

} // verus!
