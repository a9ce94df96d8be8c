use vstd::prelude::*;

verus! {

/// The characters of an optional string.
pub open spec fn optional_text(o: Option<String>) -> Option<Seq<char>> {
    match o {
        Some(p) => Some(p@),
        None => None,
    }
}

/// The single-document command line: input and output paths, an optional
/// target size and an optional document password.
pub struct Config {
    input: String,
    output: String,
    target_width: Option<i32>,
    target_height: Option<i32>,
    password: Option<String>,
}

impl Config {
    pub fn new(
        input: String,
        output: String,
        target_width: Option<i32>,
        target_height: Option<i32>,
        password: Option<String>,
    ) -> (r: Config)
        ensures
            r.input_spec() == input@,
            r.output_spec() == output@,
            r.target_width() == target_width,
            r.target_height() == target_height,
            r.password_spec() == optional_text(password),
    {
        Config { input, output, target_width, target_height, password }
    }

    pub closed spec fn input_spec(&self) -> Seq<char> {
        self.input@
    }

    pub closed spec fn output_spec(&self) -> Seq<char> {
        self.output@
    }

    pub closed spec fn password_spec(&self) -> Option<Seq<char>> {
        optional_text(self.password)
    }

    pub closed spec fn target_width(&self) -> Option<i32> {
        self.target_width
    }

    pub closed spec fn target_height(&self) -> Option<i32> {
        self.target_height
    }

    pub fn input(&self) -> (r: &str)
        ensures
            r@ == self.input_spec(),
    {
        self.input.as_str()
    }

    pub fn output(&self) -> (r: &str)
        ensures
            r@ == self.output_spec(),
    {
        self.output.as_str()
    }

    /// The password, if one was given.
    pub fn password(&self) -> (r: Option<&str>)
        ensures
            match r {
                Some(p) => self.password_spec() == Some(p@),
                None => self.password_spec().is_none(),
            },
    {
        match &self.password {
            Some(p) => Some(p.as_str()),
            None => None,
        }
    }

    /// The explicit width, if one was given.
    pub fn width(&self) -> (r: Option<i32>)
        ensures
            r == self.target_width(),
    {
        self.target_width
    }

    /// The explicit height, if one was given.
    pub fn height(&self) -> (r: Option<i32>)
        ensures
            r == self.target_height(),
    {
        self.target_height
    }
}

} // verus!
