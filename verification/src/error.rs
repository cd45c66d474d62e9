//! The error value of the framework: a code, categories, messages and the place
//! in the source where the error was raised, with the lines that reporting it emits.
use vstd::prelude::*;
use crate::text::{decimal, push_decimal};
use crate::colors::{painted, red, red_code, yellow, yellow_code};

verus! {

/// The views of a sequence of strings.
pub open spec fn strings_view(v: Seq<String>) -> Seq<Seq<char>> {
    v.map_values(|s: String| s@)
}

/// A place in the source code: file, line and column.
#[derive(Debug, Clone)]
pub struct MmeCodeLocation {
    pub file: String,
    pub line: u32,
    pub column: u32,
}

impl MmeCodeLocation {
    /// The text that shows a location: `file: <file> line: <line> column: <column>`.
    pub open spec fn text(&self) -> Seq<char> {
        "file: "@ + self.file@ + " line: "@ + decimal(self.line as nat) + " column: "@
            + decimal(self.column as nat)
    }

    /// A location made of its three parts.
    pub fn new(file: String, line: u32, column: u32) -> (res: MmeCodeLocation)
        ensures
            res.file@ == file@,
            res.line == line,
            res.column == column,
    {
        MmeCodeLocation { file, line, column }
    }

    /// The text that shows this location (what the location displays as).
    pub fn to_string(&self) -> (res: String)
        ensures
            res@ == self.text(),
    {
        let mut s = "file: ".to_owned();
        s.append(self.file.as_str());
        s.append(" line: ");
        push_decimal(&mut s, self.line as u64);
        s.append(" column: ");
        push_decimal(&mut s, self.column as u64);
        s
    }
}

/// An error of the framework.
#[derive(Debug, Clone)]
pub struct MmeError {
    pub category: Vec<String>,
    pub code: u32,
    pub messages: Vec<String>,
    pub code_location: Option<MmeCodeLocation>,
}

/// The result type of the framework.
pub type MmeResult<T> = Result<T, MmeError>;

/// The codes that name a known error.
pub open spec fn is_known_code(code: u32) -> bool {
    code == 108 || code == 109
}

/// The message of a known error code.
pub open spec fn code_message(code: u32) -> Seq<char> {
    if code == 109 {
        "conversion from utf8 failed"@
    } else {
        "serde deserialisation failed"@
    }
}

/// `e` keeps every part of `old` but its code.
pub open spec fn same_but_code(e: MmeError, old: MmeError) -> bool {
    &&& e.category@ == old.category@
    &&& e.messages@ == old.messages@
    &&& e.code_location == old.code_location
}

fn get_error_by_code(code: u32, location: MmeCodeLocation) -> (res: MmeError)
    ensures
        res.code_location == Some(location),
        is_known_code(code) ==> {
            &&& res.code == code
            &&& strings_view(res.category@) == seq!["decoding"@]
            &&& strings_view(res.messages@) == seq![code_message(code)]
        },
        !is_known_code(code) ==> {
            &&& res.code == 0
            &&& res.category@.len() == 0
            &&& res.messages@.len() == 0
        },
{
    let err = MmeError {
        category: Vec::new(),
        code: 0,
        messages: Vec::new(),
        code_location: Some(location),
    };
    match code {
        109 => {
            let e = err.set_code(109).category("decoding".to_owned()).msg(
                "conversion from utf8 failed".to_owned(),
            );
            assert(strings_view(e.category@) =~= seq!["decoding"@]);
            assert(strings_view(e.messages@) =~= seq![code_message(code)]);
            e
        },
        108 => {
            let e = err.set_code(108).category("decoding".to_owned()).msg(
                "serde deserialisation failed".to_owned(),
            );
            assert(strings_view(e.category@) =~= seq!["decoding"@]);
            assert(strings_view(e.messages@) =~= seq![code_message(code)]);
            e
        },
        _ => err,
    }
}

impl MmeError {
    /// The error that a code names, raised at `location`. Codes 108 and 109 are
    /// decoding errors with their message; any other code gives a blank error
    /// whose code is 0.
    pub fn code(code: u32, location: MmeCodeLocation) -> (res: MmeError)
        ensures
            res.code_location == Some(location),
            is_known_code(code) ==> {
                &&& res.code == code
                &&& strings_view(res.category@) == seq!["decoding"@]
                &&& strings_view(res.messages@) == seq![code_message(code)]
            },
            !is_known_code(code) ==> {
                &&& res.code == 0
                &&& res.category@.len() == 0
                &&& res.messages@.len() == 0
            },
    {
        get_error_by_code(code, location)
    }

    /// The same error with another code.
    pub fn set_code(self, code: u32) -> (res: MmeError)
        ensures
            res.code == code,
            same_but_code(res, self),
    {
        let mut s = self;
        s.code = code;
        s
    }

    /// A blank error raised at `location`: code 0, no category, no message.
    pub fn new(location: MmeCodeLocation) -> (res: MmeError)
        ensures
            res.code == 0,
            res.category@.len() == 0,
            res.messages@.len() == 0,
            res.code_location == Some(location),
    {
        MmeError { category: Vec::new(), code: 0, messages: Vec::new(), code_location: Some(location) }
    }

    /// The same error with one more message, at the end.
    pub fn msg(self, msg: String) -> (res: MmeError)
        ensures
            res.messages@ == self.messages@.push(msg),
            res.code == self.code,
            res.category@ == self.category@,
            res.code_location == self.code_location,
    {
        let mut s = self;
        s.messages.push(msg);
        s
    }

    /// The same error with one more category, at the end.
    pub fn category(self, category: String) -> (res: MmeError)
        ensures
            res.category@ == self.category@.push(category),
            res.code == self.code,
            res.messages@ == self.messages@,
            res.code_location == self.code_location,
    {
        let mut s = self;
        s.category.push(category);
        s
    }

    /// The same error raised at another location.
    pub fn location(self, location: MmeCodeLocation) -> (res: MmeError)
        ensures
            res.code_location == Some(location),
            res.code == self.code,
            res.category@ == self.category@,
            res.messages@ == self.messages@,
    {
        let mut s = self;
        s.code_location = Some(location);
        s
    }
}

/// A log line that shows a tag and a text: `[ <tag> ] <text>`.
pub open spec fn bracket_line(tag: Seq<char>, text: Seq<char>) -> Seq<char> {
    "[ "@ + tag + " ] "@ + text
}

/// A log line that shows a tag and a text separated by a space: `<tag> <text>`.
pub open spec fn tag_line(tag: Seq<char>, text: Seq<char>) -> Seq<char> {
    tag + " "@ + text
}

/// The lines that logging an error emits, the tags as they were rendered: a
/// fixed first line, the location when there is one, then one line per message.
pub open spec fn log_lines_spec(e: MmeError, location_tag: Seq<char>, msg_tag: Seq<char>) -> Seq<Seq<char>> {
    seq!["MmeError envountered!"@] + match e.code_location {
        Some(l) => seq![bracket_line(location_tag, l.text())],
        None => Seq::empty(),
    } + strings_view(e.messages@).map_values(|m: Seq<char>| bracket_line(msg_tag, m))
}

/// The first line that a critical error emits: its code, and its first message when it has one.
pub open spec fn critical_head(e: MmeError, critical_tag: Seq<char>) -> Seq<char> {
    let msgs = strings_view(e.messages@);
    if msgs.len() == 0 {
        critical_tag + " MmeError with code: "@ + decimal(e.code as nat)
    } else {
        critical_tag + " MmeError with code: "@ + decimal(e.code as nat) + " - "@ + msgs[0]
    }
}

/// The start of the first line of a critical error: the tag and the code.
pub open spec fn code_prefix(e: MmeError, critical_tag: Seq<char>) -> Seq<char> {
    critical_tag + " MmeError with code: "@ + decimal(e.code as nat)
}

/// The lines that a critical error emits before the program stops: the head
/// line, one line per further message, then the location when there is one.
pub open spec fn critical_lines_spec(
    e: MmeError,
    critical_tag: Seq<char>,
    msg_tag: Seq<char>,
    location_tag: Seq<char>,
) -> Seq<Seq<char>> {
    let msgs = strings_view(e.messages@);
    seq![critical_head(e, critical_tag)] + (if msgs.len() == 0 {
        Seq::empty()
    } else {
        msgs.drop_first().map_values(|m: Seq<char>| tag_line(msg_tag, m))
    }) + match e.code_location {
        Some(l) => seq![tag_line(location_tag, l.text())],
        None => Seq::empty(),
    }
}

fn concat3(a: &str, b: &str, c: &str) -> (res: String)
    ensures
        res@ == a@ + b@ + c@,
{
    let mut s = a.to_owned();
    s.append(b);
    s.append(c);
    s
}

fn bracket(tag: &str, text: &str) -> (res: String)
    ensures
        res@ == bracket_line(tag@, text@),
{
    let mut s = "[ ".to_owned();
    s.append(tag);
    s.append(" ] ");
    s.append(text);
    s
}

impl MmeError {
    /// Passes the error on unchanged.
    fn send(self) -> (res: MmeError)
        ensures
            res == self,
    {
        self
    }

    /// Records the error and passes it on unchanged.
    fn add_to_err_item(self) -> (res: MmeError)
        ensures
            res == self,
    {
        self
    }

    /// The lines that logging this error emits, with the given rendered tags.
    pub fn log_with_tags(&self, location_tag: &str, msg_tag: &str) -> (lines: Vec<String>)
        ensures
            strings_view(lines@) == log_lines_spec(*self, location_tag@, msg_tag@),
    {
        let mut lines: Vec<String> = Vec::new();
        lines.push("MmeError envountered!".to_owned());
        match &self.code_location {
            Some(l) => {
                let text = l.to_string();
                lines.push(bracket(location_tag, text.as_str()));
            },
            None => {},
        }
        let ghost prefix = strings_view(lines@);
        let ghost msgs = strings_view(self.messages@);
        assert(prefix == seq!["MmeError envountered!"@] + match self.code_location {
            Some(l) => seq![bracket_line(location_tag@, l.text())],
            None => Seq::<Seq<char>>::empty(),
        });
        let n = self.messages.len();
        for i in 0..n
            invariant
                n == self.messages@.len(),
                msgs == strings_view(self.messages@),
                strings_view(lines@) =~= prefix + msgs.take(i as int).map_values(
                    |m: Seq<char>| bracket_line(msg_tag@, m),
                ),
        {
            let line = bracket(msg_tag, self.messages[i].as_str());
            let ghost before = strings_view(lines@);
            lines.push(line);
            assert(strings_view(lines@) =~= before.push(line@));
            assert(msgs.take(i + 1) =~= msgs.take(i as int).push(msgs[i as int]));
        }
        assert(msgs.take(n as int) =~= msgs);
        lines
    }

    /// The lines that logging this error emits at error level; the tags are
    /// rendered yellow when the environment allows colours.
    pub fn log(&self) -> (lines: Vec<String>)
        ensures
            exists|location_tag: Seq<char>, msg_tag: Seq<char>|
                {
                    &&& painted(location_tag, "LOCATION"@, yellow_code())
                    &&& painted(msg_tag, "MSG"@, yellow_code())
                    &&& strings_view(lines@) == log_lines_spec(*self, location_tag, msg_tag)
                },
    {
        proof {
            reveal_strlit("LOCATION");
            reveal_strlit("MSG");
        }
        let location_tag = yellow("LOCATION");
        let msg_tag = yellow("MSG");
        self.log_with_tags(location_tag.as_str(), msg_tag.as_str())
    }

    /// Passes the error on and returns it unchanged, with the lines that
    /// logging it emits.
    pub fn handle(self) -> (res: (MmeError, Vec<String>))
        ensures
            res.0 == self,
            exists|location_tag: Seq<char>, msg_tag: Seq<char>|
                {
                    &&& painted(location_tag, "LOCATION"@, yellow_code())
                    &&& painted(msg_tag, "MSG"@, yellow_code())
                    &&& strings_view(res.1@) == log_lines_spec(self, location_tag, msg_tag)
                },
    {
        let e = self.send().add_to_err_item();
        let lines = e.log();
        (e, lines)
    }

    /// Passes the error on and returns it unchanged, with the lines that
    /// logging it emits with the given rendered tags: the same lines that
    /// `log_with_tags` gives for those tags.
    pub fn handle_with_tags(self, location_tag: &str, msg_tag: &str) -> (res: (MmeError, Vec<String>))
        ensures
            res.0 == self,
            strings_view(res.1@) == log_lines_spec(self, location_tag@, msg_tag@),
    {
        let e = self.send().add_to_err_item();
        let lines = e.log_with_tags(location_tag, msg_tag);
        (e, lines)
    }

    /// The lines that a critical error emits, with the given rendered tags.
    pub fn critical_with_tags(&self, critical_tag: &str, msg_tag: &str, location_tag: &str) -> (lines: Vec<
        String,
    >)
        ensures
            strings_view(lines@) == critical_lines_spec(*self, critical_tag@, msg_tag@, location_tag@),
    {
        let mut lines: Vec<String> = Vec::new();
        let n = self.messages.len();
        let ghost msgs = strings_view(self.messages@);
        let mut head = critical_tag.to_owned();
        head.append(" MmeError with code: ");
        push_decimal(&mut head, self.code as u64);
        if n == 0 {
            lines.push(head);
        } else {
            head.append(" - ");
            head.append(self.messages[0].as_str());
            lines.push(head);
        }
        assert(strings_view(lines@) =~= seq![critical_head(*self, critical_tag@)]);
        let ghost prefix = strings_view(lines@);
        if n > 0 {
            let ghost rest = msgs.drop_first();
            for i in 1..n
                invariant
                    n == self.messages@.len(),
                    n > 0,
                    msgs == strings_view(self.messages@),
                    rest == msgs.drop_first(),
                    strings_view(lines@) =~= prefix + rest.take(i - 1).map_values(
                        |m: Seq<char>| tag_line(msg_tag@, m),
                    ),
            {
                let line = concat3(msg_tag, " ", self.messages[i].as_str());
                let ghost before = strings_view(lines@);
                lines.push(line);
                assert(strings_view(lines@) =~= before.push(line@));
                assert(rest.take(i as int) =~= rest.take(i - 1).push(rest[i - 1]));
            }
            assert(rest.take(n - 1) =~= rest);
        }
        match &self.code_location {
            Some(l) => {
                let text = l.to_string();
                lines.push(concat3(location_tag, " ", text.as_str()));
            },
            None => {},
        }
        assert(strings_view(lines@) =~= critical_lines_spec(*self, critical_tag@, msg_tag@, location_tag@));
        lines
    }

    /// The lines that a critical error emits at error level before the program
    /// is stopped (the stop itself is the caller's); the tags are rendered red when the environment allows colours.
    pub fn critical_lines(&self) -> (lines: Vec<String>)
        ensures
            exists|critical_tag: Seq<char>, msg_tag: Seq<char>, location_tag: Seq<char>|
                {
                    &&& painted(critical_tag, "CRITICAL"@, red_code())
                    &&& painted(msg_tag, "MSG"@, red_code())
                    &&& painted(location_tag, "LOCATION"@, red_code())
                    &&& strings_view(lines@) == critical_lines_spec(
                        *self,
                        critical_tag,
                        msg_tag,
                        location_tag,
                    )
                },
    {
        proof {
            reveal_strlit("CRITICAL");
            reveal_strlit("MSG");
            reveal_strlit("LOCATION");
        }
        let critical_tag = red("CRITICAL");
        let msg_tag = red("MSG");
        let location_tag = red("LOCATION");
        self.critical_with_tags(critical_tag.as_str(), msg_tag.as_str(), location_tag.as_str())
    }
}

/// The message that an error converted from another value carries:
/// `From <kind>: <shown>`, `kind` naming the value's type.
pub open spec fn from_message(kind: Seq<char>, shown: Seq<char>) -> Seq<char> {
    "From "@ + kind + ": "@ + shown
}

/// A failure reported by other code, as the framework sees it: the name of its
/// type and the text it displays as.
#[derive(Debug, Clone)]
pub struct ErrorText {
    pub kind: String,
    pub shown: String,
}

impl MmeError {
    /// The error made from another value, raised at `location`: no category, code 0,
    /// one message `From <kind>: <shown>`.
    pub fn from_display_parts(kind: &str, shown: &str, location: MmeCodeLocation) -> (res: MmeError)
        ensures
            res.code == 0,
            res.category@.len() == 0,
            strings_view(res.messages@) == seq![from_message(kind@, shown@)],
            res.code_location == Some(location),
    {
        let e = MmeError::new(location).msg(concat3("From ", kind, ": ").concat(shown));
        assert(strings_view(e.messages@) =~= seq![from_message(kind@, shown@)]);
        e
    }
}

/// Unwrapping of a result that must hold a value.
pub trait MmeResultTrait<T>: Sized {
    /// The result holds a value.
    spec fn holds_value(&self) -> bool;

    /// The value that the result holds.
    spec fn held_value(&self) -> T;

    /// The value that the result holds.
    fn critical(self) -> (res: T)
        requires
            self.holds_value(),
        ensures
            res == self.held_value(),
    ;
}

impl<T> MmeResultTrait<T> for MmeResult<T> {
    open spec fn holds_value(&self) -> bool {
        self is Ok
    }

    open spec fn held_value(&self) -> T {
        self->Ok_0
    }

    fn critical(self) -> (res: T) {
        match self {
            Ok(val) => val,
            Err(_) => unreached(),
        }
    }
}

/// The error of a failed result as a framework error, in category `misc`,
/// optionally preceded by a message of the caller's.
pub trait IntoMmeResult<T, S> {
    /// The result with its error converted, raised at `location`.
    fn mme_result(self, location: MmeCodeLocation) -> MmeResult<T>;

    /// The result with its error converted, raised at `location`, with `msg`
    /// as the first message.
    fn mme_result_msg(self, msg: S, location: MmeCodeLocation) -> MmeResult<T>;
}

/// `e` is a `misc` error raised at `location` with code 0, whose messages are
/// `lead` followed by the message made from `err`.
pub open spec fn is_misc_error(e: MmeError, location: MmeCodeLocation, lead: Seq<Seq<char>>, err: ErrorText) -> bool {
    &&& e.code == 0
    &&& strings_view(e.category@) == seq!["misc"@]
    &&& e.code_location == Some(location)
    &&& strings_view(e.messages@) == lead.push(from_message(err.kind@, err.shown@))
}

impl<T> IntoMmeResult<T, String> for Result<T, ErrorText> {
    fn mme_result(self, location: MmeCodeLocation) -> (res: MmeResult<T>)
        ensures
            self matches Ok(v) ==> res == Ok::<T, MmeError>(v),
            self matches Err(err) ==> res matches Err(e) && is_misc_error(e, location, Seq::empty(), err),
    {
        match self {
            Ok(val) => Ok(val),
            Err(err) => {
                let e = MmeError::new(location).category("misc".to_owned()).msg(
                    concat3("From ", err.kind.as_str(), ": ").concat(err.shown.as_str()),
                );
                assert(strings_view(e.category@) =~= seq!["misc"@]);
                assert(strings_view(e.messages@) =~= Seq::<Seq<char>>::empty().push(
                    from_message(err.kind@, err.shown@),
                ));
                Err(e)
            },
        }
    }

    fn mme_result_msg(self, msg: String, location: MmeCodeLocation) -> (res: MmeResult<T>)
        ensures
            self matches Ok(v) ==> res == Ok::<T, MmeError>(v),
            self matches Err(err) ==> res matches Err(e) && is_misc_error(e, location, seq![msg@], err),
    {
        match self {
            Ok(val) => Ok(val),
            Err(err) => {
                let ghost lead = msg@;
                let e = MmeError::new(location).category("misc".to_owned()).msg(msg).msg(
                    concat3("From ", err.kind.as_str(), ": ").concat(err.shown.as_str()),
                );
                assert(strings_view(e.category@) =~= seq!["misc"@]);
                assert(strings_view(e.messages@) =~= seq![lead].push(
                    from_message(err.kind@, err.shown@),
                ));
                Err(e)
            },
        }
    }
}

/// Logging an error emits a fixed first line, one line for its location when it
/// has one, then one line per message, in order, each showing that message.
pub proof fn law_log_lists_every_message(e: MmeError, location_tag: Seq<char>, msg_tag: Seq<char>)
    ensures
        ({
            let lines = log_lines_spec(e, location_tag, msg_tag);
            let first_msg = if e.code_location is Some { 2int } else { 1int };
            &&& lines.len() == first_msg + e.messages@.len()
            &&& lines[0] == "MmeError envountered!"@
            &&& e.code_location matches Some(l) ==> lines[1] == bracket_line(location_tag, l.text())
            &&& forall|i: int|
                0 <= i < e.messages@.len() ==> lines[first_msg + i] == bracket_line(
                    msg_tag,
                    #[trigger] e.messages@[i]@,
                )
        }),
{
    let lines = log_lines_spec(e, location_tag, msg_tag);
    let first_msg = if e.code_location is Some { 2int } else { 1int };
    let head = seq!["MmeError envountered!"@] + match e.code_location {
        Some(l) => seq![bracket_line(location_tag, l.text())],
        None => Seq::<Seq<char>>::empty(),
    };
    let tail = strings_view(e.messages@).map_values(|m: Seq<char>| bracket_line(msg_tag, m));
    assert(lines == head + tail);
    assert(head.len() == first_msg);
    assert forall|i: int| 0 <= i < e.messages@.len() implies lines[first_msg + i]
        == bracket_line(msg_tag, #[trigger] e.messages@[i]@) by {
        assert(lines[first_msg + i] == tail[i]);
    }
}

/// A critical error emits its code on the first line, with its first message
/// when it has one, then one line per further message, in order, then its
/// location when it has one.
pub proof fn law_critical_reports_code_and_messages(
    e: MmeError,
    critical_tag: Seq<char>,
    msg_tag: Seq<char>,
    location_tag: Seq<char>,
)
    ensures
        ({
            let lines = critical_lines_spec(e, critical_tag, msg_tag, location_tag);
            let n = e.messages@.len();
            let further = if n == 0 { 0int } else { n - 1 };
            &&& lines.len() == 1 + further + if e.code_location is Some { 1int } else { 0int }
            &&& lines[0] == critical_head(e, critical_tag)
            &&& lines[0].subrange(0, code_prefix(e, critical_tag).len() as int) == code_prefix(
                e,
                critical_tag,
            )
            &&& forall|i: int|
                1 <= i < n ==> #[trigger] lines[i] == tag_line(msg_tag, e.messages@[i]@)
            &&& e.code_location matches Some(l) ==> lines[lines.len() - 1] == tag_line(
                location_tag,
                l.text(),
            )
        }),
{
    let lines = critical_lines_spec(e, critical_tag, msg_tag, location_tag);
    let msgs = strings_view(e.messages@);
    let n = e.messages@.len();
    let middle: Seq<Seq<char>> = if n == 0 {
        Seq::empty()
    } else {
        msgs.drop_first().map_values(|m: Seq<char>| tag_line(msg_tag, m))
    };
    let last: Seq<Seq<char>> = match e.code_location {
        Some(l) => seq![tag_line(location_tag, l.text())],
        None => Seq::empty(),
    };
    assert(lines == seq![critical_head(e, critical_tag)] + middle + last);
    assert forall|i: int| 1 <= i < n implies #[trigger] lines[i] == tag_line(
        msg_tag,
        e.messages@[i]@,
    ) by {
        assert(lines[i] == middle[i - 1]);
    }
    let p = code_prefix(e, critical_tag);
    assert(lines[0].subrange(0, p.len() as int) =~= p);
}

/// A location is shown as `file: ` followed by its whole file, then ` line: `,
/// its line in decimal, ` column: ` and its column in decimal: the text between
/// `file: ` and ` line: ` is exactly the file.
pub proof fn law_location_text_shows_whole_file(l: MmeCodeLocation)
    ensures
        ({
            let t = l.text();
            let f = l.file@;
            &&& t.len() as int == 6 + f.len() as int + 7 + decimal(l.line as nat).len() as int + 9 + decimal(
                l.column as nat,
            ).len() as int
            &&& t.subrange(0, 6) == "file: "@
            &&& t.subrange(6, 6 + f.len() as int) == f
            &&& t.subrange(6 + f.len() as int, 13 + f.len() as int) == " line: "@
            &&& t.subrange(13 + f.len() as int, 13 + f.len() as int + decimal(l.line as nat).len() as int) == decimal(
                l.line as nat,
            )
            &&& t.subrange(t.len() as int - decimal(l.column as nat).len() as int, t.len() as int) == decimal(
                l.column as nat,
            )
        }),
{
    reveal_strlit("file: ");
    reveal_strlit(" line: ");
    reveal_strlit(" column: ");
    let t = l.text();
    let f = l.file@;
    let dl = decimal(l.line as nat);
    let dc = decimal(l.column as nat);
    assert(t == "file: "@ + f + " line: "@ + dl + " column: "@ + dc);
    assert(t.subrange(0, 6) =~= "file: "@);
    assert(t.subrange(6, 6 + f.len() as int) =~= f);
    assert(t.subrange(6 + f.len() as int, 13 + f.len() as int) =~= " line: "@);
    assert(t.subrange(13 + f.len() as int, 13 + f.len() as int + dl.len() as int) =~= dl);
    assert(t.subrange(t.len() as int - dc.len() as int, t.len() as int) =~= dc);
}

/// Every message of a logged error appears whole, in order, each on its own
/// line `[ <tag> ] <message>`: the line is five characters and the tag longer
/// than the message, and ends with the whole message. The location line shows
/// the whole location text the same way.
pub proof fn law_log_shows_whole_messages(e: MmeError, location_tag: Seq<char>, msg_tag: Seq<char>)
    ensures
        ({
            let lines = log_lines_spec(e, location_tag, msg_tag);
            let first_msg = if e.code_location is Some { 2int } else { 1int };
            &&& lines.len() as int == first_msg + e.messages@.len() as int
            &&& e.code_location matches Some(l) ==> lines[1] == "[ "@ + location_tag + " ] "@
                + l.text()
            &&& forall|i: int|
                0 <= i < e.messages@.len() as int ==> {
                    let m = #[trigger] e.messages@[i]@;
                    let line = lines[first_msg + i];
                    &&& line == "[ "@ + msg_tag + " ] "@ + m
                    &&& line.len() as int == 5 + msg_tag.len() as int + m.len() as int
                    &&& line.subrange(line.len() as int - m.len() as int, line.len() as int) == m
                }
        }),
{
    reveal_strlit("[ ");
    reveal_strlit(" ] ");
    law_log_lists_every_message(e, location_tag, msg_tag);
    let lines = log_lines_spec(e, location_tag, msg_tag);
    let first_msg = if e.code_location is Some { 2int } else { 1int };
    assert forall|i: int| 0 <= i < e.messages@.len() as int implies {
        let m = #[trigger] e.messages@[i]@;
        let line = lines[first_msg + i];
        &&& line == "[ "@ + msg_tag + " ] "@ + m
        &&& line.len() as int == 5 + msg_tag.len() as int + m.len() as int
        &&& line.subrange(line.len() as int - m.len() as int, line.len() as int) == m
    } by {
        let m = e.messages@[i]@;
        let line = lines[first_msg + i];
        assert(line == bracket_line(msg_tag, m));
        assert(line.subrange(line.len() as int - m.len() as int, line.len() as int) =~= m);
    }
}

/// A critical error shows every one of its messages whole and in order: the
/// first line is `<tag> MmeError with code: <code>`, followed by ` - ` and the
/// first message when there is one; each further message has a line
/// `<tag> <message>`. So the i-th line ends with the i-th message.
pub proof fn law_critical_shows_every_message(
    e: MmeError,
    critical_tag: Seq<char>,
    msg_tag: Seq<char>,
    location_tag: Seq<char>,
)
    ensures
        ({
            let lines = critical_lines_spec(e, critical_tag, msg_tag, location_tag);
            let n = e.messages@.len() as int;
            let head = critical_tag + " MmeError with code: "@ + decimal(e.code as nat);
            &&& n == 0 ==> lines[0] == head
            &&& n > 0 ==> lines[0] == head + " - "@ + e.messages@[0]@
            &&& forall|i: int| 1 <= i < n ==> lines[i] == msg_tag + " "@ + (#[trigger] e.messages@[i])@
            &&& forall|i: int|
                0 <= i < n ==> {
                    let m = (#[trigger] e.messages@[i])@;
                    lines[i].subrange(lines[i].len() as int - m.len() as int, lines[i].len() as int) == m
                }
            &&& e.code_location matches Some(l) ==> lines[lines.len() as int - 1] == location_tag + " "@
                + l.text()
        }),
{
    law_critical_reports_code_and_messages(e, critical_tag, msg_tag, location_tag);
    let lines = critical_lines_spec(e, critical_tag, msg_tag, location_tag);
    let n = e.messages@.len() as int;
    assert forall|i: int| 0 <= i < n implies {
        let m = (#[trigger] e.messages@[i])@;
        lines[i].subrange(lines[i].len() as int - m.len() as int, lines[i].len() as int) == m
    } by {
        let m = e.messages@[i]@;
        if i == 0 {
            assert(strings_view(e.messages@)[0] == m);
        }
        assert(lines[i].subrange(lines[i].len() as int - m.len() as int, lines[i].len() as int) =~= m);
    }
}

/// An error converted from another failure carries `From <kind>: ` followed
/// by the failure's whole displayed text: the message ends with that text and
/// is seven characters longer than kind and text together.
pub proof fn law_from_message_keeps_whole_text(kind: Seq<char>, shown: Seq<char>)
    ensures
        ({
            let m = from_message(kind, shown);
            &&& m == "From "@ + kind + ": "@ + shown
            &&& m.len() as int == 7 + kind.len() as int + shown.len() as int
            &&& m.subrange(0, 5) == "From "@
            &&& m.subrange(5, 5 + kind.len() as int) == kind
            &&& m.subrange(m.len() as int - shown.len() as int, m.len() as int) == shown
        }),
{
    reveal_strlit("From ");
    reveal_strlit(": ");
    let m = from_message(kind, shown);
    assert(m.subrange(0, 5) =~= "From "@);
    assert(m.subrange(5, 5 + kind.len() as int) =~= kind);
    assert(m.subrange(m.len() as int - shown.len() as int, m.len() as int) =~= shown);
}

} // verus!
