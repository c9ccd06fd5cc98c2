//! Recognising the web browsers that can be scripted.

use vstd::prelude::*;
use vstd::string::StringExecFns;

use crate::scan::{
    fields, find, find_either, first_occurrence, first_of_two, split, strip, stripped, to_chars,
    to_string,
};
use crate::text::{replace_char, replaced, str_eq, trim, trimmed};

verus! {

/// The browsers that can be asked for the position of the focused element.
#[derive(Debug, Clone, Copy, PartialEq, Eq, Structural)]
pub enum BrowserType {
    Safari,
    Chrome,
    Brave,
    Arc,
}

/// Bundle identifier of Safari.
pub const SAFARI_BUNDLE: &'static str = "com.apple.Safari";

/// Bundle identifier of Chrome.
pub const CHROME_BUNDLE: &'static str = "com.google.Chrome";

/// Bundle identifier of Arc.
pub const ARC_BUNDLE: &'static str = "company.thebrowser.Browser";

/// Bundle identifier of Brave.
pub const BRAVE_BUNDLE: &'static str = "com.brave.Browser";

/// Bundle identifier of Edge, which is scripted as Chrome is.
pub const EDGE_BUNDLE: &'static str = "com.microsoft.edgemac";

impl BrowserType {
    /// The name under which the browser's application is addressed.
    pub open spec fn name(self) -> Seq<char> {
        match self {
            BrowserType::Safari => "Safari"@,
            BrowserType::Chrome => "Google Chrome"@,
            BrowserType::Brave => "Brave Browser"@,
            BrowserType::Arc => "Arc"@,
        }
    }

    /// The browser that a bundle identifier stands for: the first of
    /// Safari, Chrome (also for Edge), Brave and Arc whose identifier it is.
    pub open spec fn of_bundle(bundle_id: Seq<char>) -> Option<BrowserType> {
        if bundle_id == "com.apple.Safari"@ {
            Some(BrowserType::Safari)
        } else if bundle_id == "com.google.Chrome"@ || bundle_id == "com.microsoft.edgemac"@ {
            Some(BrowserType::Chrome)
        } else if bundle_id == "com.brave.Browser"@ {
            Some(BrowserType::Brave)
        } else if bundle_id == "company.thebrowser.Browser"@ {
            Some(BrowserType::Arc)
        } else {
            None
        }
    }

    /// The name under which this browser's application is addressed.
    pub fn app_name(&self) -> (name: &'static str)
        ensures
            name@ == self.name(),
    {
        match self {
            BrowserType::Safari => "Safari",
            BrowserType::Chrome => "Google Chrome",
            BrowserType::Brave => "Brave Browser",
            BrowserType::Arc => "Arc",
        }
    }
}

/// The scriptable browser that `bundle_id` belongs to, if any.
pub fn detect_browser_type(bundle_id: &str) -> (browser: Option<BrowserType>)
    ensures
        browser == BrowserType::of_bundle(bundle_id@),
{
    if str_eq(bundle_id, SAFARI_BUNDLE) {
        Some(BrowserType::Safari)
    } else if str_eq(bundle_id, CHROME_BUNDLE) || str_eq(bundle_id, EDGE_BUNDLE) {
        Some(BrowserType::Chrome)
    } else if str_eq(bundle_id, BRAVE_BUNDLE) {
        Some(BrowserType::Brave)
    } else if str_eq(bundle_id, ARC_BUNDLE) {
        Some(BrowserType::Arc)
    } else {
        None
    }
}

/// The script that asks the page for the rectangle of its focused element,
/// relative to the viewport, and for the height of the viewport. It answers
/// with a JSON object, or with `null` where nothing is focused.
pub const GET_ELEMENT_RECT_JS: &'static str = r#"(function() { var el = document.activeElement; if (!el || el === document.body || el === document.documentElement) return null; if (el.tagName === 'IFRAME') { try { var iframeDoc = el.contentDocument || el.contentWindow.document; if (iframeDoc && iframeDoc.activeElement && iframeDoc.activeElement !== iframeDoc.body) { var iframeRect = el.getBoundingClientRect(); var innerEl = iframeDoc.activeElement; var innerRect = innerEl.getBoundingClientRect(); return JSON.stringify({ x: Math.round(iframeRect.left + innerRect.left), y: Math.round(iframeRect.top + innerRect.top), width: Math.round(innerRect.width), height: Math.round(innerRect.height), viewportHeight: window.innerHeight }); } } catch(e) {} } if (el.shadowRoot && el.shadowRoot.activeElement) { el = el.shadowRoot.activeElement; } var rect = el.getBoundingClientRect(); if (rect.width === 0 && rect.height === 0) return null; return JSON.stringify({ x: Math.round(rect.left), y: Math.round(rect.top), width: Math.round(rect.width), height: Math.round(rect.height), viewportHeight: window.innerHeight }); })()"#;

/// The page script as it stands inside a double-quoted string of the
/// scripting language: every double quote is escaped by a backslash.
pub open spec fn quoted_page_script() -> Seq<char> {
    replaced(GET_ELEMENT_RECT_JS@, '"', "\\\""@)
}

/// The script that makes Safari run the page script in its current tab.
pub open spec fn safari_script() -> Seq<char> {
    r#"tell application "Safari"
    if (count of windows) = 0 then return "null"
    tell front window
        if (count of tabs) = 0 then return "null"
        try
            return do JavaScript ""#@ + quoted_page_script() + r#"" in current tab
        on error
            return "null"
        end try
    end tell
end tell"#@
}

/// The script that makes the Chrome-like browser `app_name` run the page
/// script in the active tab of its front window.
pub open spec fn chrome_script(app_name: Seq<char>) -> Seq<char> {
    r#"tell application ""#@ + app_name + r#""
    if (count of windows) = 0 then return "null"
    tell active tab of front window
        try
            return execute javascript ""#@ + quoted_page_script() + r#""
        on error
            return "null"
        end try
    end tell
end tell"#@
}

/// The page script, escaped for a double-quoted string.
fn escaped_page_script() -> (script: String)
    ensures
        script@ == quoted_page_script(),
{
    replace_char(GET_ELEMENT_RECT_JS, '"', "\\\"")
}

/// Builds the script for Safari.
pub fn build_safari_script() -> (script: String)
    ensures
        script@ == safari_script(),
{
    let page_script = escaped_page_script();
    String::from_str(r#"tell application "Safari"
    if (count of windows) = 0 then return "null"
    tell front window
        if (count of tabs) = 0 then return "null"
        try
            return do JavaScript ""#).concat(page_script.as_str()).concat(r#"" in current tab
        on error
            return "null"
        end try
    end tell
end tell"#)
}

/// Builds the script for a Chrome-like browser: Chrome, Arc, Brave or Edge.
pub fn build_chrome_script(app_name: &str) -> (script: String)
    ensures
        script@ == chrome_script(app_name@),
{
    let page_script = escaped_page_script();
    String::from_str(r#"tell application ""#).concat(app_name).concat(r#""
    if (count of windows) = 0 then return "null"
    tell active tab of front window
        try
            return execute javascript ""#).concat(
        page_script.as_str(),
    ).concat(r#""
        on error
            return "null"
        end try
    end tell
end tell"#)
}

/// The text under which a key stands in a JSON object: the key in double
/// quotes, then a colon.
pub open spec fn key_pattern(key: Seq<char>) -> Seq<char> {
    seq!['"'] + key + seq!['"', ':']
}

/// The text of the number that follows the first occurrence of `key` in a
/// flat JSON object: what stands between the key's colon and the next comma
/// or closing brace, or the end of the text. `None` where the key does not
/// occur.
pub open spec fn number_field(json: Seq<char>, key: Seq<char>) -> Option<Seq<char>> {
    match first_occurrence(json, key_pattern(key), 0) {
        Some(at) => {
            let start = at + key_pattern(key).len();
            Some(json.subrange(start, first_of_two(json, ',', '}', start)))
        },
        None => None,
    }
}

/// The number of `key`, as text without surrounding whitespace.
pub open spec fn number_text(json: Seq<char>, key: Seq<char>) -> Option<Seq<char>> {
    match number_field(json, key) {
        Some(field) => Some(trimmed(field)),
        None => None,
    }
}

/// The numbers of the rectangle that the page script answers, as texts.
pub struct ViewportText {
    pub x: String,
    pub y: String,
    pub width: String,
    pub height: String,
    /// The height of the viewport; older answers lack it.
    pub viewport_height: Option<String>,
}

/// The texts of a rectangle, as mathematics.
pub struct ViewportFields {
    pub x: Seq<char>,
    pub y: Seq<char>,
    pub width: Seq<char>,
    pub height: Seq<char>,
    pub viewport_height: Option<Seq<char>>,
}

impl View for ViewportText {
    type V = ViewportFields;

    open spec fn view(&self) -> ViewportFields {
        ViewportFields {
            x: self.x@,
            y: self.y@,
            width: self.width@,
            height: self.height@,
            viewport_height: match self.viewport_height {
                Some(text) => Some(text@),
                None => None,
            },
        }
    }
}

/// The object that a script's answer holds: the answer without surrounding
/// whitespace and without the double quotes around it.
pub open spec fn answer_body(answer: Seq<char>) -> Seq<char> {
    stripped(trimmed(answer), '"')
}

/// The numbers of the rectangle in a script's answer: `x`, `y`, `width` and
/// `height` have to be there, `viewportHeight` may be.
pub open spec fn viewport_fields(answer: Seq<char>) -> Option<ViewportFields> {
    let body = answer_body(answer);
    match (
        number_text(body, "x"@),
        number_text(body, "y"@),
        number_text(body, "width"@),
        number_text(body, "height"@),
    ) {
        (Some(x), Some(y), Some(width), Some(height)) => Some(
            ViewportFields {
                x,
                y,
                width,
                height,
                viewport_height: number_text(body, "viewportHeight"@),
            },
        ),
        _ => None,
    }
}

/// The text that follows the first occurrence of `key` in `json`, up to the
/// next comma or closing brace.
pub fn json_number_field(json: &Vec<char>, key: &str) -> (field: Option<String>)
    ensures
        match field {
            Some(text) => number_field(json@, key@) == Some(text@),
            None => number_field(json@, key@) is None,
        },
{
    let mut pattern: Vec<char> = Vec::new();
    pattern.push('"');
    let mut name = to_chars(key);
    pattern.append(&mut name);
    pattern.push('"');
    pattern.push(':');
    assert(pattern@ =~= key_pattern(key@));
    match find(json, &pattern) {
        Some(at) => {
            let start = at + pattern.len();
            let end = find_either(json, ',', '}', start);
            Some(to_string(json, start, end))
        },
        None => None,
    }
}

/// The number of `key` in `json`, as text without surrounding whitespace.
pub fn json_number_text(json: &Vec<char>, key: &str) -> (number: Option<String>)
    ensures
        match number {
            Some(text) => number_text(json@, key@) == Some(text@),
            None => number_text(json@, key@) is None,
        },
{
    match json_number_field(json, key) {
        Some(field) => Some(trim(field.as_str())),
        None => None,
    }
}

/// The number of `key` in the flat JSON object `json`, as text without
/// surrounding whitespace; the caller reads the text as a number.
pub fn extract_json_number(json: &str, key: &str) -> (number: Option<String>)
    ensures
        match number {
            Some(text) => number_text(json@, key@) == Some(text@),
            None => number_text(json@, key@) is None,
        },
{
    let chars = to_chars(json);
    json_number_text(&chars, key)
}

/// The object that the trimmed answer of a script holds.
pub fn body_of_trimmed(answer: &str) -> (body: Vec<char>)
    ensures
        body@ == stripped(answer@, '"'),
{
    let chars = to_chars(answer);
    let (from, to) = strip(&chars, '"');
    let mut body: Vec<char> = Vec::new();
    let mut at = from;
    while at < to
        invariant
            from <= at <= to <= chars@.len(),
            body@ == chars@.subrange(from as int, at as int),
        decreases to - at,
    {
        body.push(chars[at]);
        assert(chars@.subrange(from as int, at as int).push(chars@[at as int]) =~= chars@.subrange(
            from as int,
            at + 1,
        ));
        at += 1;
    }
    body
}

/// Reads the rectangle that the page script answered, as texts; the caller
/// reads the texts as numbers.
pub fn parse_viewport_frame_json(json: &str) -> (frame: Option<ViewportText>)
    ensures
        match frame {
            Some(texts) => viewport_fields(json@) == Some(texts@),
            None => viewport_fields(json@) is None,
        },
{
    let trimmed_answer = trim(json);
    let body = body_of_trimmed(trimmed_answer.as_str());
    let x = match json_number_text(&body, "x") {
        Some(text) => text,
        None => {
            return None;
        },
    };
    let y = match json_number_text(&body, "y") {
        Some(text) => text,
        None => {
            return None;
        },
    };
    let width = match json_number_text(&body, "width") {
        Some(text) => text,
        None => {
            return None;
        },
    };
    let height = match json_number_text(&body, "height") {
        Some(text) => text,
        None => {
            return None;
        },
    };
    let viewport_height = json_number_text(&body, "viewportHeight");
    Some(ViewportText { x, y, width, height, viewport_height })
}

/// The four numbers that tell position and size of a window, as texts: the
/// answer without surrounding whitespace has to consist of exactly four
/// fields between commas.
pub open spec fn bounds_fields(answer: Seq<char>) -> Option<Seq<Seq<char>>> {
    let parts = fields(trimmed(answer), ',');
    if parts.len() == 4 {
        Some(parts)
    } else {
        None
    }
}

/// Reads position and size of a window from a script's answer, as texts;
/// the caller reads the texts as numbers.
pub fn window_bounds_fields(answer: &str) -> (bounds: Option<Vec<String>>)
    ensures
        match bounds {
            Some(texts) => bounds_fields(answer@) == Some(texts@.map_values(|text: String| text@)),
            None => bounds_fields(answer@) is None,
        },
{
    let trimmed_answer = trim(answer);
    let chars = to_chars(trimmed_answer.as_str());
    let parts = split(&chars, ',');
    if parts.len() != 4 {
        return None;
    }
    let ghost wanted = fields(chars@, ',');
    let mut texts: Vec<String> = Vec::new();
    let mut at: usize = 0;
    while at < 4
        invariant
            at <= 4,
            parts@.len() == 4,
            parts@.map_values(|part: Vec<char>| part@) == wanted,
            texts@.map_values(|text: String| text@) == wanted.take(at as int),
        decreases 4 - at,
    {
        let ghost before = texts@.map_values(|text: String| text@);
        let part = &parts[at];
        let text = to_string(part, 0, part.len());
        assert(part@.subrange(0, part@.len() as int) =~= part@);
        assert(parts@.map_values(|part: Vec<char>| part@)[at as int] == part@);
        texts.push(text);
        assert(texts@.map_values(|text: String| text@) =~= before.push(part@));
        assert(wanted.take(at as int).push(wanted[at as int]) =~= wanted.take(at + 1));
        at += 1;
    }
    assert(wanted.take(4) =~= wanted);
    Some(texts)
}

} // verus!
