use vstd::prelude::*;
use vstd::string::*;

verus! {

/// The specific kind of error that can occur.
#[derive(Debug, Clone)]
pub enum ErrorKind {
    /// An error loading a resource occurred.
    ///
    /// The data provided is the resource name from the configuration.
    BadResourceConfig(String),
    /// An error loading an image occurred: the path, and the cause.
    Image(String, String),
    /// An unexpected I/O error occurred: the path, and the cause.
    Io(String, String),
    /// An error watching a path occurred: the path, and the cause.
    WatchPath(String, String),
    /// The bytes of a file are no UTF-8 text: the path, and the cause.
    FromUtf8(String, String),
    /// An error occurred while parsing the TOML configuration.
    Toml(String),
    /// An error compiling a GLSL vertex shader.
    ///
    /// The data provided is the GLSL error.
    GlslVertex(String),
    /// An error compiling a GLSL fragment shader.
    ///
    /// The data provided is the GLSL error.
    GlslFragment(String),
    /// An error linking a GLSL program.
    ///
    /// The data provided is the GLSL error.
    GlslProgram(String),
    /// A gstreamer error occurred.
    Gstreamer(String),
    /// An error finding a resource.
    ///
    /// The data provided is the unrecognized name, the channel name attempting
    /// to use it, and the names that exist.
    ResourceNotFound(String, String, Vec<String>),
    /// An error during the pass construction.
    ///
    /// The data provided is the pass index.
    GLPass(usize),
    /// An error with notify occurred.
    Notify(String),
    /// An error with SDL2 occurred.
    SDL2(String),
    /// An unexpected error occurred. Generally, these errors correspond
    /// to bugs.
    Bug(String),
}

/// An error: what went wrong, and underneath it, where there is one, the
/// error that led to it.
#[derive(Debug, Clone)]
pub struct Error {
    pub kind: ErrorKind,
    pub cause: Option<ErrorKind>,
}

impl Error {
    /// Return the kind of this error.
    pub fn kind(&self) -> (kind: &ErrorKind)
        ensures
            *kind == self.kind,
    {
        &self.kind
    }

    /// An error of the given kind, with no cause underneath.
    pub fn from_kind(kind: ErrorKind) -> (error: Error)
        ensures
            error.kind == kind,
            error.cause is None,
    {
        Error { kind, cause: None }
    }

    /// Puts a context above an error: the context becomes the error's kind,
    /// the kind that it had becomes the cause.
    pub fn with_context(self, context: ErrorKind) -> (error: Error)
        ensures
            error.kind == context,
            error.cause == Some(self.kind),
    {
        Error { kind: context, cause: Some(self.kind) }
    }

    pub fn glsl_vertex(msg: &str) -> (error: Error)
        ensures
            error.kind matches ErrorKind::GlslVertex(m) && m@ == msg@,
            error.cause is None,
    {
        Error::from_kind(ErrorKind::GlslVertex(String::from_str(msg)))
    }

    pub fn glsl_fragment(msg: &str) -> (error: Error)
        ensures
            error.kind matches ErrorKind::GlslFragment(m) && m@ == msg@,
            error.cause is None,
    {
        Error::from_kind(ErrorKind::GlslFragment(String::from_str(msg)))
    }

    pub fn glsl_program(msg: &str) -> (error: Error)
        ensures
            error.kind matches ErrorKind::GlslProgram(m) && m@ == msg@,
            error.cause is None,
    {
        Error::from_kind(ErrorKind::GlslProgram(String::from_str(msg)))
    }

    pub fn bug(msg: &str) -> (error: Error)
        ensures
            error.kind matches ErrorKind::Bug(m) && m@ == msg@,
            error.cause is None,
    {
        Error::from_kind(ErrorKind::Bug(String::from_str(msg)))
    }
}


/// A text as Rust writes it for debugging: between double quotes, with the
/// characters escaped that cannot stand there as they are.
pub uninterp spec fn quoted(text: Seq<char>) -> Seq<char>;

/// Writes a text with the `Debug` formatting of `str`.
#[verifier::external_body]
fn write_quoted(text: &str) -> (written: String)
    ensures
        written@ == quoted(text@),
{
    format!("{:?}", text)
}

/// A list of texts as Rust writes it for debugging: the quoted texts between
/// square brackets, with commas between them.
pub uninterp spec fn quoted_list(texts: Seq<Seq<char>>) -> Seq<char>;

/// The texts of a list of strings.
pub open spec fn texts_of(list: Seq<String>) -> Seq<Seq<char>> {
    Seq::new(list.len(), |i: int| list[i]@)
}

/// Writes a list of texts with the `Debug` formatting of `Vec<String>`.
#[verifier::external_body]
fn write_quoted_list(texts: &Vec<String>) -> (written: String)
    ensures
        written@ == quoted_list(texts_of(texts@)),
{
    format!("{:?}", texts)
}

/// A decimal digit as text.
pub open spec fn digit(d: nat) -> Seq<char> {
    if d == 0 {
        "0"@
    } else if d == 1 {
        "1"@
    } else if d == 2 {
        "2"@
    } else if d == 3 {
        "3"@
    } else if d == 4 {
        "4"@
    } else if d == 5 {
        "5"@
    } else if d == 6 {
        "6"@
    } else if d == 7 {
        "7"@
    } else if d == 8 {
        "8"@
    } else {
        "9"@
    }
}

/// A number in decimal notation.
pub open spec fn decimal(n: nat) -> Seq<char>
    decreases n,
{
    if n < 10 {
        digit(n)
    } else {
        decimal(n / 10) + digit(n % 10)
    }
}

fn push_digit(text: &mut String, d: usize)
    requires
        d < 10,
    ensures
        final(text)@ == old(text)@ + digit(d as nat),
{
    let s = if d == 0 {
        "0"
    } else if d == 1 {
        "1"
    } else if d == 2 {
        "2"
    } else if d == 3 {
        "3"
    } else if d == 4 {
        "4"
    } else if d == 5 {
        "5"
    } else if d == 6 {
        "6"
    } else if d == 7 {
        "7"
    } else if d == 8 {
        "8"
    } else {
        "9"
    };
    text.append(s);
}

/// Appends a number in decimal notation to a text.
pub fn push_decimal(text: &mut String, n: usize)
    ensures
        final(text)@ == old(text)@ + decimal(n as nat),
    decreases n,
{
    if n < 10 {
        push_digit(text, n);
    } else {
        push_decimal(text, n / 10);
        push_digit(text, n % 10);
        assert(text@ =~= old(text)@ + decimal(n as nat));
    }
}

/// Where bugs are to be reported.
pub open spec fn report_request() -> Seq<char> {
    "Please report this bug with a backtrace at https://github.com/jshrake/grimoire"@
}

impl ErrorKind {
    /// What the error says to the user.
    pub open spec fn message_text(self) -> Seq<char> {
        match self {
            ErrorKind::Image(path, err) => "Error loading image at "@ + quoted(path@) + ": "@
                + err@,
            ErrorKind::Io(path, err) => "Error performing I/O operation on "@ + quoted(path@)
                + ": "@ + err@,
            ErrorKind::WatchPath(path, err) => "Error watching path "@ + quoted(path@) + ": "@
                + err@,
            ErrorKind::BadResourceConfig(name) => "Error loading resource \""@ + name@ + "\""@,
            ErrorKind::Notify(err) => err@,
            ErrorKind::FromUtf8(path, err) => "Error calling String::from_utf8 on bytes from file "@
                + quoted(path@) + ": "@ + err@,
            ErrorKind::GlslVertex(err) => "[GLSL] Error compiling vertex shader: "@ + err@,
            ErrorKind::GlslFragment(err) => "[GLSL] Error compiling fragment shader: "@ + err@,
            ErrorKind::GlslProgram(err) => "[GLSL] Error linking program: "@ + err@,
            ErrorKind::Toml(err) => "[TOML] Error parsing configuration: "@ + err@,
            ErrorKind::GLPass(index) => "Error building [[pass]] "@ + decimal(index as nat),
            ErrorKind::ResourceNotFound(name, channel, available) => "Bad channel map "@
                + channel@ + " = \""@ + name@ + "\": resource \""@ + name@
                + "\" not found. Valid resource names: "@ + quoted_list(texts_of(available@)),
            ErrorKind::SDL2(err) => "[SDL2]: "@ + err@,
            ErrorKind::Gstreamer(err) => "[GSTREAMER] "@ + quoted(err@)
                + " (Run with GST_DEBUG=3 for more information)"@,
            ErrorKind::Bug(msg) => "[BUG] "@ + msg@ + "\n"@ + report_request(),
        }
    }

    /// Writes what the error says to the user.
    pub fn message(&self) -> (text: String)
        ensures
            text@ == self.message_text(),
    {
        match self {
            ErrorKind::Image(path, err) => {
                let mut text = String::from_str("Error loading image at ");
                text.append(write_quoted(path.as_str()).as_str());
                text.append(": ");
                text.append(err.as_str());
                text
            },
            ErrorKind::Io(path, err) => {
                let mut text = String::from_str("Error performing I/O operation on ");
                text.append(write_quoted(path.as_str()).as_str());
                text.append(": ");
                text.append(err.as_str());
                text
            },
            ErrorKind::WatchPath(path, err) => {
                let mut text = String::from_str("Error watching path ");
                text.append(write_quoted(path.as_str()).as_str());
                text.append(": ");
                text.append(err.as_str());
                text
            },
            ErrorKind::BadResourceConfig(name) => {
                let mut text = String::from_str("Error loading resource \"");
                text.append(name.as_str());
                text.append("\"");
                text
            },
            ErrorKind::Notify(err) => err.clone(),
            ErrorKind::FromUtf8(path, err) => {
                let mut text = String::from_str(
                    "Error calling String::from_utf8 on bytes from file ",
                );
                text.append(write_quoted(path.as_str()).as_str());
                text.append(": ");
                text.append(err.as_str());
                text
            },
            ErrorKind::GlslVertex(err) => {
                let mut text = String::from_str("[GLSL] Error compiling vertex shader: ");
                text.append(err.as_str());
                text
            },
            ErrorKind::GlslFragment(err) => {
                let mut text = String::from_str("[GLSL] Error compiling fragment shader: ");
                text.append(err.as_str());
                text
            },
            ErrorKind::GlslProgram(err) => {
                let mut text = String::from_str("[GLSL] Error linking program: ");
                text.append(err.as_str());
                text
            },
            ErrorKind::Toml(err) => {
                let mut text = String::from_str("[TOML] Error parsing configuration: ");
                text.append(err.as_str());
                text
            },
            ErrorKind::GLPass(index) => {
                let mut text = String::from_str("Error building [[pass]] ");
                push_decimal(&mut text, *index);
                text
            },
            ErrorKind::ResourceNotFound(name, channel, available) => {
                let mut text = String::from_str("Bad channel map ");
                text.append(channel.as_str());
                text.append(" = \"");
                text.append(name.as_str());
                text.append("\": resource \"");
                text.append(name.as_str());
                text.append("\" not found. Valid resource names: ");
                text.append(write_quoted_list(available).as_str());
                text
            },
            ErrorKind::SDL2(err) => {
                let mut text = String::from_str("[SDL2]: ");
                text.append(err.as_str());
                text
            },
            ErrorKind::Gstreamer(err) => {
                let mut text = String::from_str("[GSTREAMER] ");
                text.append(write_quoted(err.as_str()).as_str());
                text.append(" (Run with GST_DEBUG=3 for more information)");
                text
            },
            ErrorKind::Bug(msg) => {
                let mut text = String::from_str("[BUG] ");
                text.append(msg.as_str());
                text.append("\n");
                text.append(
                    "Please report this bug with a backtrace at https://github.com/jshrake/grimoire",
                );
                text
            },
        }
    }
}

impl Error {
    /// The error with the error that led to it, each on a line of its own.
    pub open spec fn pretty_text(self) -> Seq<char> {
        match self.cause {
            Some(cause) => self.kind.message_text() + "\n"@ + cause.message_text(),
            None => self.kind.message_text(),
        }
    }

    /// Writes the error with the error that led to it.
    pub fn pretty_error(&self) -> (text: String)
        ensures
            text@ == self.pretty_text(),
    {
        let mut text = self.kind.message();
        if let Some(cause) = &self.cause {
            text.append("\n");
            text.append(cause.message().as_str());
        }
        text
    }
}

} // verus!
