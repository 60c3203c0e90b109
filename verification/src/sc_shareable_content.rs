use vstd::prelude::*;

verus! {

/// A window as the native discovery query reports it. The title is absent
/// where the native object answers nil for it.
pub struct RawWindow {
    pub window_id: u32,
    pub title: Option<String>,
    pub is_on_screen: bool,
}

/// A running application as the native discovery query reports it; either
/// string may be absent.
pub struct RawApplication {
    pub process_id: i32,
    pub application_name: Option<String>,
    pub bundle_identifier: Option<String>,
}

/// A display as the native discovery query reports it.
pub struct RawDisplay {
    pub display_id: u32,
    pub width: u32,
    pub height: u32,
}

/// Everything one native discovery query reports.
pub struct RawShareableContent {
    pub windows: Vec<RawWindow>,
    pub applications: Vec<RawApplication>,
    pub displays: Vec<RawDisplay>,
}

/// A shareable window, with every absent native string settled to empty.
pub struct SCWindow {
    pub window_id: u32,
    pub title: String,
    pub is_on_screen: bool,
}

/// A shareable running application, with every absent native string settled
/// to empty.
pub struct SCRunningApplication {
    pub process_id: i32,
    pub application_name: String,
    pub bundle_identifier: String,
}

/// A shareable display.
pub struct SCDisplay {
    pub display_id: u32,
    pub width: u32,
    pub height: u32,
}

/// The shareable content of the system at the moment of one discovery
/// query: its windows, running applications and displays, as owned values
/// with no native handle left in them.
pub struct SCShareableContent {
    pub windows: Vec<SCWindow>,
    pub applications: Vec<SCRunningApplication>,
    pub displays: Vec<SCDisplay>,
}

/// The chars of an optional native string, an absent one reading as empty.
pub open spec fn settled_chars(s: Option<String>) -> Seq<char> {
    match s {
        Some(t) => t@,
        None => Seq::<char>::empty(),
    }
}

/// How one reported window becomes a shareable window.
pub open spec fn window_converted(raw: RawWindow, w: SCWindow) -> bool {
    &&& w.window_id == raw.window_id
    &&& w.is_on_screen == raw.is_on_screen
    &&& w.title@ == settled_chars(raw.title)
}

/// How one reported application becomes a shareable application.
pub open spec fn application_converted(raw: RawApplication, a: SCRunningApplication) -> bool {
    &&& a.process_id == raw.process_id
    &&& a.application_name@ == settled_chars(raw.application_name)
    &&& a.bundle_identifier@ == settled_chars(raw.bundle_identifier)
}

/// How one reported display becomes a shareable display.
pub open spec fn display_converted(raw: RawDisplay, d: SCDisplay) -> bool {
    &&& d.display_id == raw.display_id
    &&& d.width == raw.width
    &&& d.height == raw.height
}

/// Elementwise conversion of the reported windows.
pub open spec fn windows_converted(raw: Seq<RawWindow>, out: Seq<SCWindow>) -> bool {
    &&& out.len() == raw.len()
    &&& forall|i: int| 0 <= i < raw.len() ==> window_converted(raw[i], #[trigger] out[i])
}

/// Elementwise conversion of the reported applications.
pub open spec fn applications_converted(
    raw: Seq<RawApplication>,
    out: Seq<SCRunningApplication>,
) -> bool {
    &&& out.len() == raw.len()
    &&& forall|i: int| 0 <= i < raw.len() ==> application_converted(raw[i], #[trigger] out[i])
}

/// Elementwise conversion of the reported displays.
pub open spec fn displays_converted(raw: Seq<RawDisplay>, out: Seq<SCDisplay>) -> bool {
    &&& out.len() == raw.len()
    &&& forall|i: int| 0 <= i < raw.len() ==> display_converted(raw[i], #[trigger] out[i])
}

/// Whether a whole query outcome was converted faithfully.
pub open spec fn content_converted(raw: RawShareableContent, c: SCShareableContent) -> bool {
    &&& windows_converted(raw.windows@, c.windows@)
    &&& applications_converted(raw.applications@, c.applications@)
    &&& displays_converted(raw.displays@, c.displays@)
}

/// Settles an optional native string into an owned one, empty where absent.
fn settle_string(s: &Option<String>) -> (r: String)
    ensures
        r@ == settled_chars(*s),
{
    match s {
        Some(t) => t.clone(),
        None => String::new(),
    }
}

impl SCWindow {
    /// Converts one reported window.
    pub fn from_raw(raw: &RawWindow) -> (r: SCWindow)
        ensures
            window_converted(*raw, r),
    {
        SCWindow {
            window_id: raw.window_id,
            title: settle_string(&raw.title),
            is_on_screen: raw.is_on_screen,
        }
    }
}

impl SCRunningApplication {
    /// Converts one reported application.
    pub fn from_raw(raw: &RawApplication) -> (r: SCRunningApplication)
        ensures
            application_converted(*raw, r),
    {
        SCRunningApplication {
            process_id: raw.process_id,
            application_name: settle_string(&raw.application_name),
            bundle_identifier: settle_string(&raw.bundle_identifier),
        }
    }
}

impl SCDisplay {
    /// Converts one reported display.
    pub fn from_raw(raw: &RawDisplay) -> (r: SCDisplay)
        ensures
            display_converted(*raw, r),
    {
        SCDisplay { display_id: raw.display_id, width: raw.width, height: raw.height }
    }
}

impl SCShareableContent {
    /// Builds the shareable content out of one discovery query's outcome:
    /// a failed query's message is passed through unchanged, a successful
    /// one has each reported window, application and display converted to
    /// an owned value.
    pub fn try_current(query: Result<RawShareableContent, String>) -> (r: Result<
        SCShareableContent,
        String,
    >)
        ensures
            query matches Err(m) ==> (r matches Err(m2) && m2 == m),
            query matches Ok(raw) ==> (r matches Ok(c) && content_converted(raw, c)),
    {
        let raw = match query {
            Err(m) => {
                return Err(m);
            },
            Ok(raw) => raw,
        };
        let mut windows: Vec<SCWindow> = Vec::new();
        let mut i: usize = 0;
        while i < raw.windows.len()
            invariant
                i <= raw.windows.len(),
                windows@.len() == i as int,
                forall|j: int|
                    0 <= j < i as int ==> window_converted(raw.windows@[j], #[trigger] windows@[j]),
            decreases raw.windows.len() - i,
        {
            windows.push(SCWindow::from_raw(&raw.windows[i]));
            i += 1;
        }
        let mut applications: Vec<SCRunningApplication> = Vec::new();
        let mut i: usize = 0;
        while i < raw.applications.len()
            invariant
                i <= raw.applications.len(),
                applications@.len() == i as int,
                forall|j: int|
                    0 <= j < i as int ==> application_converted(
                        raw.applications@[j],
                        #[trigger] applications@[j],
                    ),
            decreases raw.applications.len() - i,
        {
            applications.push(SCRunningApplication::from_raw(&raw.applications[i]));
            i += 1;
        }
        let mut displays: Vec<SCDisplay> = Vec::new();
        let mut i: usize = 0;
        while i < raw.displays.len()
            invariant
                i <= raw.displays.len(),
                displays@.len() == i as int,
                forall|j: int|
                    0 <= j < i as int ==> display_converted(
                        raw.displays@[j],
                        #[trigger] displays@[j],
                    ),
            decreases raw.displays.len() - i,
        {
            displays.push(SCDisplay::from_raw(&raw.displays[i]));
            i += 1;
        }
        Ok(SCShareableContent { windows, applications, displays })
    }

    /// As [`SCShareableContent::try_current`], for a caller that has already
    /// made sure the query succeeded.
    pub fn current(query: Result<RawShareableContent, String>) -> (r: SCShareableContent)
        requires
            query is Ok,
        ensures
            content_converted(query.unwrap(), r),
    {
        match Self::try_current(query) {
            Ok(c) => c,
            Err(_) => vstd::pervasive::unreached(),
        }
    }
}

} // verus!
