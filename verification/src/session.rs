//! The display session: its state machine, validation, and contracts.

use vstd::prelude::*;
use vstd::string::StrSliceExecFns;
use vstd::string::StringExecFns;

use crate::align::HorizontalAlign;
use crate::align::VerticalAlign;
use crate::command::Command;
use crate::command::contains_nul;
use crate::command::has_nul;
use crate::error::Error;

verus! {

/// The whole observable state of one session: what each line shows,
/// whether the window is visible, and every configured value. A `None`
/// configuration field means the native default was never overridden.
#[verifier::ext_equal]
pub ghost struct XosdState {
    pub content: Seq<Option<Command>>,
    pub onscreen: bool,
    pub bar_length: Option<u16>,
    pub timeout: Option<u16>,
    pub vertical_align: Option<VerticalAlign>,
    pub horizontal_align: Option<HorizontalAlign>,
    pub shadow_offset: Option<i32>,
    pub outline_offset: Option<i32>,
    pub horizontal_offset: Option<i32>,
    pub vertical_offset: Option<i32>,
    pub color: Option<Seq<char>>,
    pub shadow_color: Option<Seq<char>>,
    pub outline_color: Option<Seq<char>>,
    pub font: Option<Seq<char>>,
}

/// The state of a freshly created session with `lines` lines: every line
/// blank, the window not on screen, nothing configured.
pub open spec fn initial_state(lines: int) -> XosdState {
    XosdState {
        content: Seq::new(lines as nat, |i: int| None::<Command>),
        onscreen: false,
        bar_length: None,
        timeout: None,
        vertical_align: None,
        horizontal_align: None,
        shadow_offset: None,
        outline_offset: None,
        horizontal_offset: None,
        vertical_offset: None,
        color: None,
        shadow_color: None,
        outline_color: None,
        font: None,
    }
}

/// The message carried by the failure that displaying to a line outside
/// the window reports.
pub open spec fn line_range_message() -> Seq<char> {
    "line index out of range"@
}

/// The message carried by the failure that scrolling by fewer than one or
/// more than all lines reports.
pub open spec fn scroll_range_message() -> Seq<char> {
    "scroll distance out of range"@
}

/// Holds when a session in state `pre` accepts displaying `command` on
/// line `line`: the line exists, the command's text (if any) can take the
/// native form, and the reported value fits the type it is returned in.
pub open spec fn display_accepts(pre: XosdState, line: int, command: Command) -> bool {
    &&& !command.has_embedded_nul()
    &&& 0 <= line < pre.content.len()
    &&& command.value() <= u16::MAX
}

/// The state after `command` was displayed on line `line`: that line shows
/// the command and the window is on screen.
pub open spec fn displayed(pre: XosdState, line: int, command: Command) -> XosdState {
    XosdState { content: pre.content.update(line, Some(command)), onscreen: true, ..pre }
}

/// The line contents after scrolling up by `n` lines: every line takes
/// what stood `n` lines below it, and the last `n` lines are blank.
pub open spec fn scrolled(content: Seq<Option<Command>>, n: int) -> Seq<Option<Command>> {
    content.subrange(n, content.len() as int) + Seq::new(n as nat, |i: int| None::<Command>)
}

/// One display session. It owns the session's state and checks every
/// operation: bounded numeric inputs, line indices, and strings that must
/// take the native form. A driver that owns the native handle keeps the
/// native window in lockstep with this state.
pub struct Xosd {
    content: Vec<Option<Command>>,
    onscreen: bool,
    bar_length: Option<u16>,
    timeout: Option<u16>,
    vertical_align: Option<VerticalAlign>,
    horizontal_align: Option<HorizontalAlign>,
    shadow_offset: Option<i32>,
    outline_offset: Option<i32>,
    horizontal_offset: Option<i32>,
    vertical_offset: Option<i32>,
    color: Option<String>,
    shadow_color: Option<String>,
    outline_color: Option<String>,
    font: Option<String>,
}

impl View for Xosd {
    type V = XosdState;

    closed spec fn view(&self) -> XosdState {
        XosdState {
            content: self.content@,
            onscreen: self.onscreen,
            bar_length: self.bar_length,
            timeout: self.timeout,
            vertical_align: self.vertical_align,
            horizontal_align: self.horizontal_align,
            shadow_offset: self.shadow_offset,
            outline_offset: self.outline_offset,
            horizontal_offset: self.horizontal_offset,
            vertical_offset: self.vertical_offset,
            color: match self.color {
                Some(s) => Some(s@),
                None => None,
            },
            shadow_color: match self.shadow_color {
                Some(s) => Some(s@),
                None => None,
            },
            outline_color: match self.outline_color {
                Some(s) => Some(s@),
                None => None,
            },
            font: match self.font {
                Some(s) => Some(s@),
                None => None,
            },
        }
    }
}

impl Xosd {
    /// A session is well formed when it has at least one line and the
    /// count fits the signed type it is reported in.
    pub open spec fn wf(&self) -> bool {
        1 <= self@.content.len() <= i32::MAX
    }

    /// Creates a session with `lines` display lines. A request for fewer
    /// than one line is rejected before anything else happens.
    pub fn new(lines: i32) -> (r: Result<Xosd, Error>)
        ensures
            lines < 1 ==> r == Err::<Xosd, Error>(Error::InvalidLineCount),
            lines >= 1 ==> (r matches Ok(osd) && osd.wf() && osd@ == initial_state(lines as int)),
    {
        if lines < 1 {
            return Err(Error::InvalidLineCount);
        }
        let n = lines as usize;
        let mut content: Vec<Option<Command>> = Vec::new();
        let mut i: usize = 0;
        while i < n
            invariant
                i <= n,
                content@ =~= Seq::new(i as nat, |j: int| None::<Command>),
            decreases n - i,
        {
            content.push(None);
            i += 1;
        }
        let osd = Xosd {
            content,
            onscreen: false,
            bar_length: None,
            timeout: None,
            vertical_align: None,
            horizontal_align: None,
            shadow_offset: None,
            outline_offset: None,
            horizontal_offset: None,
            vertical_offset: None,
            color: None,
            shadow_color: None,
            outline_color: None,
            font: None,
        };
        proof {
            assert(osd@ =~= initial_state(lines as int));
        }
        Ok(osd)
    }

    /// Reports the line count the session was created with.
    pub fn max_lines(&mut self) -> (r: Result<i32, Error>)
        requires
            old(self).wf(),
        ensures
            final(self)@ == old(self)@,
            r matches Ok(n) && n == old(self)@.content.len(),
    {
        Ok(self.content.len() as i32)
    }

    /// Reports whether the window is on screen.
    pub fn onscreen(&mut self) -> (r: Result<bool, Error>)
        requires
            old(self).wf(),
        ensures
            final(self)@ == old(self)@,
            r == Ok::<bool, Error>(old(self)@.onscreen),
    {
        Ok(self.onscreen)
    }

    /// Maps the window again after a `conceal`, or before anything was
    /// displayed; the previously displayed content becomes visible.
    pub fn show(&mut self) -> (r: Result<(), Error>)
        requires
            old(self).wf(),
        ensures
            final(self).wf(),
            r == Ok::<(), Error>(()),
            final(self)@ == (XosdState { onscreen: true, ..old(self)@ }),
    {
        self.onscreen = true;
        Ok(())
    }

    /// Unmaps the window; displaying something maps it again.
    pub fn conceal(&mut self) -> (r: Result<(), Error>)
        requires
            old(self).wf(),
        ensures
            final(self).wf(),
            r == Ok::<(), Error>(()),
            final(self)@ == (XosdState { onscreen: false, ..old(self)@ }),
    {
        self.onscreen = false;
        Ok(())
    }

    /// Blocks until the timeout has elapsed and nothing is displayed any
    /// more; afterwards the window is off screen.
    pub fn wait_until_no_display(&mut self) -> (r: Result<(), Error>)
        requires
            old(self).wf(),
        ensures
            final(self).wf(),
            r == Ok::<(), Error>(()),
            final(self)@ == (XosdState { onscreen: false, ..old(self)@ }),
    {
        self.onscreen = false;
        Ok(())
    }

    /// Sets how much of the display a percentage bar or slider takes up,
    /// as a percentage; `None` returns to the default behaviour. A value
    /// above 100 is rejected.
    pub fn set_bar_length(&mut self, percentage: Option<u16>) -> (r: Result<(), Error>)
        requires
            old(self).wf(),
        ensures
            final(self).wf(),
            (percentage matches Some(v) && v > 100) ==> (r == Err::<(), Error>(
                Error::OutOfRangePercentage,
            ) && final(self)@ == old(self)@),
            (percentage matches Some(v) ==> v <= 100) ==> (r == Ok::<(), Error>(()) && final(self)@ == (XosdState { bar_length: percentage, ..old(self)@ })),
    {
        if let Some(v) = percentage {
            if v > 100 {
                return Err(Error::OutOfRangePercentage);
            }
        }
        self.bar_length = percentage;
        Ok(())
    }

    /// Sets the vertical alignment of the window.
    pub fn set_vertical_align(&mut self, align: VerticalAlign) -> (r: Result<(), Error>)
        requires
            old(self).wf(),
        ensures
            final(self).wf(),
            r == Ok::<(), Error>(()),
            final(self)@ == (XosdState { vertical_align: Some(align), ..old(self)@ }),
    {
        self.vertical_align = Some(align);
        Ok(())
    }

    /// Sets the horizontal alignment of the window.
    pub fn set_horizontal_align(&mut self, align: HorizontalAlign) -> (r: Result<(), Error>)
        requires
            old(self).wf(),
        ensures
            final(self).wf(),
            r == Ok::<(), Error>(()),
            final(self)@ == (XosdState { horizontal_align: Some(align), ..old(self)@ }),
    {
        self.horizontal_align = Some(align);
        Ok(())
    }

    /// Sets how many pixels the drop shadow is offset to the bottom right.
    pub fn set_shadow_offset(&mut self, offset: i32) -> (r: Result<(), Error>)
        requires
            old(self).wf(),
        ensures
            final(self).wf(),
            r == Ok::<(), Error>(()),
            final(self)@ == (XosdState { shadow_offset: Some(offset), ..old(self)@ }),
    {
        self.shadow_offset = Some(offset);
        Ok(())
    }

    /// Sets the thickness of the outline drawn around the text, in pixels.
    pub fn set_outline_offset(&mut self, offset: i32) -> (r: Result<(), Error>)
        requires
            old(self).wf(),
        ensures
            final(self).wf(),
            r == Ok::<(), Error>(()),
            final(self)@ == (XosdState { outline_offset: Some(offset), ..old(self)@ }),
    {
        self.outline_offset = Some(offset);
        Ok(())
    }

    /// Sets how many pixels the window is offset from the left of the
    /// screen.
    pub fn set_horizontal_offset(&mut self, offset: i32) -> (r: Result<(), Error>)
        requires
            old(self).wf(),
        ensures
            final(self).wf(),
            r == Ok::<(), Error>(()),
            final(self)@ == (XosdState { horizontal_offset: Some(offset), ..old(self)@ }),
    {
        self.horizontal_offset = Some(offset);
        Ok(())
    }

    /// Sets how many pixels the window is offset from the top or bottom of
    /// the screen.
    pub fn set_vertical_offset(&mut self, offset: i32) -> (r: Result<(), Error>)
        requires
            old(self).wf(),
        ensures
            final(self).wf(),
            r == Ok::<(), Error>(()),
            final(self)@ == (XosdState { vertical_offset: Some(offset), ..old(self)@ }),
    {
        self.vertical_offset = Some(offset);
        Ok(())
    }

    /// Sets how many seconds displayed data stays before the window is
    /// hidden.
    pub fn set_timeout(&mut self, timeout: u16) -> (r: Result<(), Error>)
        requires
            old(self).wf(),
        ensures
            final(self).wf(),
            r == Ok::<(), Error>(()),
            final(self)@ == (XosdState { timeout: Some(timeout), ..old(self)@ }),
    {
        self.timeout = Some(timeout);
        Ok(())
    }

    /// Sets the text colour, as a colour name the window system knows. A
    /// name with an embedded NUL cannot take the native form and is
    /// rejected.
    pub fn set_color(&mut self, color: String) -> (r: Result<(), Error>)
        requires
            old(self).wf(),
        ensures
            final(self).wf(),
            has_nul(color@) ==> (r == Err::<(), Error>(Error::StringConversionError) && final(self)@ == old(self)@),
            !has_nul(color@) ==> (r == Ok::<(), Error>(()) && final(self)@ == (XosdState {
                color: Some(color@),
                ..old(self)@
            })),
    {
        if contains_nul(color.as_str()) {
            return Err(Error::StringConversionError);
        }
        self.color = Some(color);
        Ok(())
    }

    /// Sets the colour of the drop shadow; the same rules as `set_color`.
    pub fn set_shadow_color(&mut self, color: String) -> (r: Result<(), Error>)
        requires
            old(self).wf(),
        ensures
            final(self).wf(),
            has_nul(color@) ==> (r == Err::<(), Error>(Error::StringConversionError) && final(self)@ == old(self)@),
            !has_nul(color@) ==> (r == Ok::<(), Error>(()) && final(self)@ == (XosdState {
                shadow_color: Some(color@),
                ..old(self)@
            })),
    {
        if contains_nul(color.as_str()) {
            return Err(Error::StringConversionError);
        }
        self.shadow_color = Some(color);
        Ok(())
    }

    /// Sets the colour of the text outline; the same rules as `set_color`.
    pub fn set_outline_color(&mut self, color: String) -> (r: Result<(), Error>)
        requires
            old(self).wf(),
        ensures
            final(self).wf(),
            has_nul(color@) ==> (r == Err::<(), Error>(Error::StringConversionError) && final(self)@ == old(self)@),
            !has_nul(color@) ==> (r == Ok::<(), Error>(()) && final(self)@ == (XosdState {
                outline_color: Some(color@),
                ..old(self)@
            })),
    {
        if contains_nul(color.as_str()) {
            return Err(Error::StringConversionError);
        }
        self.outline_color = Some(color);
        Ok(())
    }

    /// Sets the font, as a font description name the window system knows.
    /// A name with an embedded NUL cannot take the native form and is
    /// rejected.
    pub fn set_font(&mut self, font: String) -> (r: Result<(), Error>)
        requires
            old(self).wf(),
        ensures
            final(self).wf(),
            has_nul(font@) ==> (r == Err::<(), Error>(Error::StringConversionError) && final(self)@ == old(self)@),
            !has_nul(font@) ==> (r == Ok::<(), Error>(()) && final(self)@ == (XosdState {
                font: Some(font@),
                ..old(self)@
            })),
    {
        if contains_nul(font.as_str()) {
            return Err(Error::StringConversionError);
        }
        self.font = Some(font);
        Ok(())
    }

    /// Displays `command` on line `line` and reports the command's value:
    /// the character count for text, the bar value for a percentage or
    /// slider. The window is on screen afterwards.
    ///
    /// Text with an embedded NUL is rejected first; then a line the window
    /// does not have; then text too long for the reported count. A
    /// rejected command changes nothing.
    pub fn display(&mut self, line: i32, command: Command) -> (r: Result<u16, Error>)
        requires
            old(self).wf(),
        ensures
            final(self).wf(),
            display_accepts(old(self)@, line as int, command) ==> (final(self)@ == displayed(
                old(self)@,
                line as int,
                command,
            ) && (r matches Ok(v) && v == command.value())),
            !display_accepts(old(self)@, line as int, command) ==> final(self)@ == old(self)@,
            command.has_embedded_nul() ==> r == Err::<u16, Error>(Error::StringConversionError),
            (!command.has_embedded_nul() && !(0 <= line < old(self)@.content.len())) ==> (r
                matches Err(e) && e matches Error::NativeError(m) && m@ == line_range_message()),
            (!command.has_embedded_nul() && 0 <= line < old(self)@.content.len()
                && command.value() > u16::MAX) ==> r == Err::<u16, Error>(
                Error::NumericConversionError,
            ),
    {
        let text_with_nul = match &command {
            Command::Text(s) => contains_nul(s.as_str()),
            _ => false,
        };
        if text_with_nul {
            return Err(Error::StringConversionError);
        }
        if line < 0 || line as usize >= self.content.len() {
            return Err(Error::NativeError(String::from_str("line index out of range")));
        }
        let idx = line as usize;
        let value: u16 = match &command {
            Command::Percentage(v) => *v,
            Command::Slider(v) => *v,
            Command::Text(s) => {
                let chars = s.as_str().unicode_len();
                if chars > 65535 {
                    return Err(Error::NumericConversionError);
                }
                chars as u16
            },
        };
        self.content[idx] = Some(command);
        self.onscreen = true;
        proof {
            assert(final(self)@ =~= displayed(old(self)@, line as int, command));
        }
        Ok(value)
    }

    /// Scrolls the display up by `lines` lines: each line takes the
    /// content that stood `lines` below it and the freed lines at the
    /// bottom are blank. A distance of fewer than one line, or of more
    /// lines than the window has, is rejected and changes nothing.
    pub fn scroll(&mut self, lines: i32) -> (r: Result<(), Error>)
        requires
            old(self).wf(),
        ensures
            final(self).wf(),
            (1 <= lines <= old(self)@.content.len()) ==> (r == Ok::<(), Error>(())
                && final(self)@ == (XosdState {
                content: scrolled(old(self)@.content, lines as int),
                ..old(self)@
            })),
            !(1 <= lines <= old(self)@.content.len()) ==> (final(self)@ == old(self)@
                && (r matches Err(e) && e matches Error::NativeError(m) && m@
                == scroll_range_message())),
    {
        if lines < 1 || lines as usize > self.content.len() {
            return Err(Error::NativeError(String::from_str("scroll distance out of range")));
        }
        let n = lines as usize;
        scroll_content(&mut self.content, n);
        Ok(())
    }
}

/// Shifts the line contents up by `n`: drops the first `n` entries and
/// appends `n` blank ones, so the length is kept.
fn scroll_content(content: &mut Vec<Option<Command>>, n: usize)
    requires
        n <= old(content).len(),
    ensures
        final(content)@ == scrolled(old(content)@, n as int),
{
    let mut k: usize = 0;
    while k < n
        invariant
            k <= n,
            n <= old(content)@.len(),
            content@ =~= old(content)@.subrange(k as int, old(content)@.len() as int),
        decreases n - k,
    {
        content.remove(0);
        k += 1;
    }
    let mut k2: usize = 0;
    while k2 < n
        invariant
            content@ =~= old(content)@.subrange(n as int, old(content)@.len() as int) + Seq::new(
                k2 as nat,
                |i: int| None::<Command>,
            ),
            k2 <= n,
        decreases n - k2,
    {
        content.push(None);
        k2 += 1;
    }
    proof {
        assert(content@ =~= scrolled(old(content)@, n as int));
    }
}

/// Law: a freshly created session reports exactly the requested line
/// count, and its window is not yet on screen.
pub proof fn lemma_initial_session(lines: i32)
    requires
        1 <= lines,
    ensures
        initial_state(lines as int).content.len() == lines,
        !initial_state(lines as int).onscreen,
{
}

/// Law: the window is on screen immediately after a successful display,
/// whatever state it was in before.
pub proof fn lemma_display_sets_onscreen(pre: XosdState, line: int, command: Command)
    ensures
        displayed(pre, line, command).onscreen,
{
}

/// Law: scrolling keeps the line count.
pub proof fn lemma_scroll_keeps_line_count(content: Seq<Option<Command>>, n: int)
    requires
        0 <= n <= content.len(),
    ensures
        scrolled(content, n).len() == content.len(),
{
}

} // verus!
