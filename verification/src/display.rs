use crate::error::CaptureError;
use vstd::prelude::*;
use vstd::string::*;

verus! {

/// The platform's identifier of one physical display.
#[derive(Clone, Copy, PartialEq, Eq, Debug, Structural)]
pub struct DisplayHandle(pub isize);

/// What the platform reports of one monitor: its rectangle on the virtual
/// screen and its device name in UTF-16 units, padded with NUL.
#[derive(Clone, PartialEq, Eq, Debug)]
pub struct MonitorInfo {
    pub left: i32,
    pub top: i32,
    pub right: i32,
    pub bottom: i32,
    pub device: Vec<u16>,
}

/// One entry of the display directory, a snapshot taken at enumeration.
#[derive(PartialEq, Debug)]
pub struct Display {
    pub handle: DisplayHandle,
    pub display_name: String,
    pub resolution: (u32, u32),
}

/// What a display reported when it was enumerated; `info` is `None` where
/// the platform could not describe the monitor.
#[derive(Clone, PartialEq, Eq, Debug)]
pub struct MonitorReport {
    pub handle: DisplayHandle,
    pub info: Option<MonitorInfo>,
}

/// A display bound as a capturable surface. Its size was queried when it was
/// bound and is positive in both dimensions.
#[derive(Debug)]
pub struct CaptureTarget {
    handle: DisplayHandle,
    width: u32,
    height: u32,
}

pub ghost struct MonitorInfoView {
    pub left: i32,
    pub top: i32,
    pub right: i32,
    pub bottom: i32,
    pub device: Seq<u16>,
}

pub ghost struct DisplayView {
    pub handle: DisplayHandle,
    pub display_name: Seq<char>,
    pub resolution: (u32, u32),
}

pub ghost struct CaptureTargetView {
    pub handle: DisplayHandle,
    pub width: u32,
    pub height: u32,
}

impl View for MonitorInfo {
    type V = MonitorInfoView;

    open spec fn view(&self) -> MonitorInfoView {
        MonitorInfoView {
            left: self.left,
            top: self.top,
            right: self.right,
            bottom: self.bottom,
            device: self.device@,
        }
    }
}

impl View for Display {
    type V = DisplayView;

    open spec fn view(&self) -> DisplayView {
        DisplayView {
            handle: self.handle,
            display_name: self.display_name@,
            resolution: self.resolution,
        }
    }
}

impl View for CaptureTarget {
    type V = CaptureTargetView;

    closed spec fn view(&self) -> CaptureTargetView {
        CaptureTargetView { handle: self.handle, width: self.width, height: self.height }
    }
}

/// The text that `String::from_utf16_lossy` gives for a sequence of UTF-16 units.
pub uninterp spec fn utf16_lossy(units: Seq<u16>) -> Seq<char>;

/// `text` without the NUL characters at its start.
pub open spec fn trim_start_nul(text: Seq<char>) -> Seq<char>
    decreases text.len(),
{
    if text.len() > 0 && text[0] == '\0' {
        trim_start_nul(text.subrange(1, text.len() as int))
    } else {
        text
    }
}

/// `text` without the NUL characters at its end.
pub open spec fn trim_end_nul(text: Seq<char>) -> Seq<char>
    decreases text.len(),
{
    if text.len() > 0 && text[text.len() - 1] == '\0' {
        trim_end_nul(text.subrange(0, text.len() - 1))
    } else {
        text
    }
}

/// `text` without the NUL characters at either end.
pub open spec fn trim_nul(text: Seq<char>) -> Seq<char> {
    trim_end_nul(trim_start_nul(text))
}

/// The distance from `low` to `high` as an unsigned 32-bit number; for
/// `low <= high` it is `high - low`, otherwise it wraps around.
pub open spec fn extent(low: i32, high: i32) -> u32 {
    ((high - low) % 0x1_0000_0000) as u32
}

/// The directory entry of the monitor `handle` of which the platform reported `info`.
pub open spec fn entry_of(handle: DisplayHandle, info: MonitorInfoView) -> DisplayView {
    DisplayView {
        handle,
        display_name: trim_nul(utf16_lossy(info.device)),
        resolution: (extent(info.left, info.right), extent(info.top, info.bottom)),
    }
}

/// The entries of a sequence of displays.
pub open spec fn entries(displays: Seq<Display>) -> Seq<DisplayView> {
    displays.map_values(|d: Display| d@)
}

/// `listed` after one more monitor has reported: an unreadable monitor is
/// skipped, a readable one is added at the end.
pub open spec fn with_report(listed: Seq<DisplayView>, report: MonitorReport) -> Seq<DisplayView> {
    match report.info {
        Some(info) => listed.push(entry_of(report.handle, info@)),
        None => listed,
    }
}

/// The directory that a sequence of reports gives: the entries of the
/// readable monitors, in the order in which they reported.
pub open spec fn directory(reports: Seq<MonitorReport>) -> Seq<DisplayView>
    decreases reports.len(),
{
    if reports.len() == 0 {
        Seq::empty()
    } else {
        with_report(directory(reports.drop_last()), reports.last())
    }
}

/// Whether a binding reply carries a size that a target can have.
pub open spec fn usable_size(bound: Option<(i32, i32)>) -> bool {
    bound matches Some((width, height)) && width > 0 && height > 0
}

proof fn lemma_trim_start_skips(text: Seq<char>, i: int)
    requires
        0 <= i <= text.len(),
        forall|k: int| 0 <= k < i ==> text[k] == '\0',
    ensures
        trim_start_nul(text) == trim_start_nul(text.subrange(i, text.len() as int)),
    decreases i,
{
    if i == 0 {
        assert(text.subrange(0, text.len() as int) =~= text);
    } else {
        let rest = text.subrange(1, text.len() as int);
        assert(text[0] == '\0');
        assert forall|k: int| 0 <= k < i - 1 implies rest[k] == '\0' by {
            assert(rest[k] == text[k + 1]);
        }
        lemma_trim_start_skips(rest, i - 1);
        assert(rest.subrange(i - 1, rest.len() as int) =~= text.subrange(i, text.len() as int));
    }
}

proof fn lemma_trim_end_skips(text: Seq<char>, j: int)
    requires
        0 <= j <= text.len(),
        forall|k: int| j <= k < text.len() ==> text[k] == '\0',
    ensures
        trim_end_nul(text) == trim_end_nul(text.subrange(0, j)),
    decreases text.len() - j,
{
    if j == text.len() {
        assert(text.subrange(0, j) =~= text);
    } else {
        let rest = text.subrange(0, text.len() - 1);
        assert(text[text.len() - 1] == '\0');
        lemma_trim_end_skips(rest, j);
        assert(rest.subrange(0, j) =~= text.subrange(0, j));
    }
}

/// Decodes UTF-16 units with `String::from_utf16_lossy`, which puts U+FFFD in
/// place of each unpaired surrogate. The contract only names the result.
#[verifier::external_body]
fn decode_utf16_lossy(units: &Vec<u16>) -> (text: String)
    ensures
        text@ == utf16_lossy(units@),
{
    String::from_utf16_lossy(units.as_slice())
}

/// Strips the NUL characters from both ends of `text`.
pub fn trim_nul_chars(text: &str) -> (trimmed: String)
    ensures
        trimmed@ == trim_nul(text@),
{
    let n: usize = text.unicode_len();
    let mut start: usize = 0;
    while start < n && text.get_char(start) == '\0'
        invariant
            n == text@.len(),
            start <= n,
            forall|k: int| 0 <= k < start ==> text@[k] == '\0',
        decreases n - start,
    {
        start = start + 1;
    }
    let mut end: usize = n;
    while end > start && text.get_char(end - 1) == '\0'
        invariant
            n == text@.len(),
            start <= end <= n,
            forall|k: int| end <= k < n ==> text@[k] == '\0',
        decreases end,
    {
        end = end - 1;
    }
    proof {
        let tail = text@.subrange(start as int, n as int);
        lemma_trim_start_skips(text@, start as int);
        assert(trim_start_nul(tail) == tail);
        assert forall|k: int| end - start <= k < tail.len() implies tail[k] == '\0' by {
            assert(tail[k] == text@[k + start]);
        }
        lemma_trim_end_skips(tail, end - start);
        let core = tail.subrange(0, end - start);
        assert(core =~= text@.subrange(start as int, end as int));
        assert(trim_end_nul(core) == core);
    }
    String::from_str(text.substring_char(start, end))
}

/// Computes `extent(low, high)`.
pub fn span(low: i32, high: i32) -> (len: u32)
    ensures
        len == extent(low, high),
{
    let d: i64 = high as i64 - low as i64;
    if d < 0 {
        (d + 0x1_0000_0000) as u32
    } else {
        d as u32
    }
}

impl Clone for Display {
    fn clone(&self) -> (copy: Display)
        ensures
            copy.handle == self.handle,
            copy.display_name@ == self.display_name@,
            copy.resolution == self.resolution,
    {
        Display {
            handle: self.handle,
            display_name: self.display_name.clone(),
            resolution: (self.resolution.0, self.resolution.1),
        }
    }
}

impl CaptureTarget {
    #[verifier::type_invariant]
    spec fn positive_area(&self) -> bool {
        self.width > 0 && self.height > 0
    }

    /// The target of the given display and size.
    pub(crate) fn sized(handle: DisplayHandle, width: u32, height: u32) -> (target: CaptureTarget)
        requires
            width > 0,
            height > 0,
        ensures
            target@ == (CaptureTargetView { handle, width, height }),
    {
        CaptureTarget { handle, width, height }
    }

    /// The display that this target shows.
    pub fn handle(&self) -> (handle: DisplayHandle)
        ensures
            handle == self@.handle,
    {
        self.handle
    }

    /// The target's width and height in pixels, neither of them zero.
    pub fn size(&self) -> (size: (u32, u32))
        ensures
            size == (self@.width, self@.height),
            size.0 > 0,
            size.1 > 0,
    {
        proof {
            use_type_invariant(self);
        }
        (self.width, self.height)
    }
}

impl Clone for CaptureTarget {
    fn clone(&self) -> (copy: CaptureTarget)
        ensures
            copy@ == self@,
    {
        proof {
            use_type_invariant(self);
        }
        CaptureTarget { handle: self.handle, width: self.width, height: self.height }
    }
}

impl Display {
    /// Builds the directory entry of a monitor from what the platform
    /// reported of it: the name is the decoded device name without the NUL
    /// padding, the resolution the width and height of the rectangle.
    pub fn new(monitor_handle: DisplayHandle, info: &MonitorInfo) -> (display: Display)
        ensures
            display@ == entry_of(monitor_handle, info@),
    {
        let decoded = decode_utf16_lossy(&info.device);
        Display {
            handle: monitor_handle,
            display_name: trim_nul_chars(decoded.as_str()),
            resolution: (span(info.left, info.right), span(info.top, info.bottom)),
        }
    }

    /// Lists the displays that reported, in the order of their reports. A
    /// monitor that the platform could not describe is left out.
    pub fn enumerate_displays(reports: &Vec<MonitorReport>) -> (displays: Vec<Display>)
        ensures
            entries(displays@) == directory(reports@),
    {
        let mut displays: Vec<Display> = Vec::new();
        let mut i: usize = 0;
        assert(entries(displays@) =~= directory(reports@.take(0)));
        while i < reports.len()
            invariant
                i <= reports.len(),
                entries(displays@) == directory(reports@.take(i as int)),
            decreases reports.len() - i,
        {
            proof {
                let next = reports@.take(i + 1);
                assert(next.drop_last() =~= reports@.take(i as int));
                assert(next.last() == reports@[i as int]);
            }
            enum_monitor(&mut displays, &reports[i]);
            i = i + 1;
        }
        assert(reports@.take(i as int) =~= reports@);
        displays
    }

    /// The primary display: the first of the directory. An empty directory
    /// has none.
    pub fn primary_display(displays: Vec<Display>) -> (primary: Result<Display, CaptureError>)
        ensures
            displays@.len() == 0 ==> primary == Err::<Display, CaptureError>(
                CaptureError::NoDisplayFound,
            ),
            displays@.len() > 0 ==> primary == Ok::<Display, CaptureError>(displays@[0]),
    {
        let mut displays = displays;
        if displays.is_empty() {
            return Err(CaptureError::NoDisplayFound);
        }
        Ok(displays.swap_remove(0))
    }
}

/// Takes one monitor's report into the list that an enumeration gathers,
/// and says whether the enumeration is to go on, which it always is.
pub fn enum_monitor(state: &mut Vec<Display>, report: &MonitorReport) -> (go_on: bool)
    ensures
        go_on,
        entries(final(state)@) == with_report(entries(old(state)@), *report),
{
    match &report.info {
        Some(info) => {
            let display = Display::new(report.handle, info);
            state.push(display);
            assert(entries(state@) =~= entries(old(state)@).push(display@));
        },
        None => {},
    }
    true
}

/// Turns the compositor's reply to a request to bind `monitor_handle` into a
/// capture target. `bound` is the size that the compositor reported of the
/// bound item, `None` where it refused to bind. A size that is not positive
/// in both dimensions counts as a refusal, so no target has an empty area.
pub fn create_capture_item_for_monitor(
    monitor_handle: DisplayHandle,
    bound: Option<(i32, i32)>,
) -> (item: Result<CaptureTarget, CaptureError>)
    ensures
        usable_size(bound) <==> item is Ok,
        item matches Ok(target) ==> bound matches Some((width, height)) && target@ == (
        CaptureTargetView {
            handle: monitor_handle,
            width: width as u32,
            height: height as u32,
        }) && target@.width > 0 && target@.height > 0,
        item matches Err(error) ==> error == CaptureError::InteropCreationFailed,
{
    match bound {
        Some((width, height)) => {
            if width > 0 && height > 0 {
                Ok(CaptureTarget { handle: monitor_handle, width: width as u32, height: height as u32 })
            } else {
                Err(CaptureError::InteropCreationFailed)
            }
        },
        None => Err(CaptureError::InteropCreationFailed),
    }
}

} // verus!
