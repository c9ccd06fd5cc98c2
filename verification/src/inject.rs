//! Synthesis of output keys.
//!
//! Every editing primitive is realised as a sequence of synthetic key
//! transitions for a generic text field: arrow keys with the modifier
//! conventions for word, line and document motion, and the clipboard and
//! undo shortcuts. The functions here compute those sequences; delivering
//! them to the input stream is the caller's part. Each synthetic key carries
//! the injection marker, by which the capture side tells it from genuine
//! input.

use vstd::prelude::*;

use crate::keycode::{KeyCode, Modifiers};

verus! {

/// The value that marks a key event as synthesized by this engine. It is
/// written into the event's user-data field.
pub const INJECTED_EVENT_MARKER: i64 = 0x5449_5649;

/// One synthetic key transition, in the form in which it enters the input
/// stream.
#[derive(Debug, Clone, Copy, PartialEq, Eq, Structural)]
pub struct InjectedKey {
    /// Virtual key code.
    pub code: u16,
    /// `true` for key down, `false` for key up.
    pub key_down: bool,
    /// Modifier flag word.
    pub flags: u64,
    /// User-data field: always the injection marker.
    pub user_data: i64,
}

/// The four arrow keys.
#[derive(Debug, Clone, Copy, PartialEq, Eq, Structural)]
pub enum ArrowDirection {
    Left,
    Right,
    Up,
    Down,
}

impl ArrowDirection {
    /// The arrow key of a direction.
    pub open spec fn key(self) -> KeyCode {
        match self {
            ArrowDirection::Left => KeyCode::Left,
            ArrowDirection::Right => KeyCode::Right,
            ArrowDirection::Up => KeyCode::Up,
            ArrowDirection::Down => KeyCode::Down,
        }
    }
}

/// The synthetic transition of `keycode` with `modifiers` held.
pub open spec fn key_stroke(keycode: KeyCode, key_down: bool, modifiers: Modifiers) -> InjectedKey {
    InjectedKey {
        code: keycode.raw(),
        key_down,
        flags: modifiers.flags(),
        user_data: INJECTED_EVENT_MARKER,
    }
}

/// A key press: the key goes down, then up.
pub open spec fn press(keycode: KeyCode, modifiers: Modifiers) -> Seq<InjectedKey> {
    seq![key_stroke(keycode, true, modifiers), key_stroke(keycode, false, modifiers)]
}

/// `block`, `times` times in a row.
pub open spec fn repeated(block: Seq<InjectedKey>, times: nat) -> Seq<InjectedKey>
    decreases times,
{
    if times == 0 {
        Seq::empty()
    } else {
        repeated(block, (times - 1) as nat) + block
    }
}

/// Shift alone if `select`, else no modifier: plain cursor movement.
pub open spec fn plain(select: bool) -> Modifiers {
    Modifiers { shift: select, ..Modifiers::none() }
}

/// Option, with shift if `select`: movement by word or paragraph.
pub open spec fn by_word(select: bool) -> Modifiers {
    Modifiers { option: true, shift: select, ..Modifiers::none() }
}

/// Command, with shift if `select`: movement to the end of a line or of the
/// document.
pub open spec fn to_edge(select: bool) -> Modifiers {
    Modifiers { command: true, shift: select, ..Modifiers::none() }
}

/// Command alone: the clipboard and undo shortcuts.
pub open spec fn shortcut() -> Modifiers {
    Modifiers { command: true, ..Modifiers::none() }
}

/// Keys of `new_line_below`: to the end of the line, then Return.
pub open spec fn new_line_below_keys() -> Seq<InjectedKey> {
    press(KeyCode::Right, to_edge(false)) + press(KeyCode::Return, Modifiers::none())
}

/// Keys of `new_line_above`: to the start of the line, Return, then up.
pub open spec fn new_line_above_keys() -> Seq<InjectedKey> {
    press(KeyCode::Left, to_edge(false)) + press(KeyCode::Return, Modifiers::none()) + press(
        KeyCode::Up,
        Modifiers::none(),
    )
}

/// Keys of `join_lines`: to the end of the line, delete the line break, type
/// a space.
pub open spec fn join_lines_keys() -> Seq<InjectedKey> {
    press(KeyCode::Right, to_edge(false)) + press(KeyCode::ForwardDelete, Modifiers::none())
        + press(KeyCode::Space, Modifiers::none())
}

/// Keys of `select_inner_word`: to the start of the word, then select to its
/// end.
pub open spec fn select_inner_word_keys() -> Seq<InjectedKey> {
    press(KeyCode::Left, by_word(false)) + press(KeyCode::Right, by_word(true))
}

/// Keys of `select_around_word`: the inner word and the character after it.
pub open spec fn select_around_word_keys() -> Seq<InjectedKey> {
    select_inner_word_keys() + press(KeyCode::Right, plain(true))
}

/// Keys of `indent_line`: to the start of the line, then Tab.
pub open spec fn indent_line_keys() -> Seq<InjectedKey> {
    press(KeyCode::Left, to_edge(false)) + press(KeyCode::Tab, Modifiers::none())
}

/// Keys of `outdent_line`: to the start of the line, then Shift+Tab.
pub open spec fn outdent_line_keys() -> Seq<InjectedKey> {
    press(KeyCode::Left, to_edge(false)) + press(KeyCode::Tab, plain(true))
}

/// Keys that select the current line: to its start, then select to its end.
pub open spec fn select_line_keys() -> Seq<InjectedKey> {
    press(KeyCode::Left, to_edge(false)) + press(KeyCode::Right, to_edge(true))
}

/// Synthesizes a single key transition, marked as injected.
pub fn inject_key(keycode: KeyCode, key_down: bool, modifiers: Modifiers) -> (key: InjectedKey)
    ensures
        key == key_stroke(keycode, key_down, modifiers),
{
    InjectedKey {
        code: keycode.as_raw(),
        key_down,
        flags: modifiers.to_cg_flags(),
        user_data: INJECTED_EVENT_MARKER,
    }
}

/// A key press: down, then up.
pub fn inject_key_press(keycode: KeyCode, modifiers: Modifiers) -> (keys: Vec<InjectedKey>)
    ensures
        keys@ == press(keycode, modifiers),
{
    let mut keys = Vec::new();
    keys.push(inject_key(keycode, true, modifiers));
    keys.push(inject_key(keycode, false, modifiers));
    keys
}

/// A press of an arrow key.
pub fn inject_arrow(direction: ArrowDirection, modifiers: Modifiers) -> (keys: Vec<InjectedKey>)
    ensures
        keys@ == press(direction.key(), modifiers),
{
    let keycode = match direction {
        ArrowDirection::Left => KeyCode::Left,
        ArrowDirection::Right => KeyCode::Right,
        ArrowDirection::Up => KeyCode::Up,
        ArrowDirection::Down => KeyCode::Down,
    };
    inject_key_press(keycode, modifiers)
}

/// `count` presses of an arrow key.
fn arrow_presses(direction: ArrowDirection, modifiers: Modifiers, count: u32) -> (keys: Vec<
    InjectedKey,
>)
    ensures
        keys@ == repeated(press(direction.key(), modifiers), count as nat),
{
    let mut keys = Vec::new();
    let mut done: u32 = 0;
    while done < count
        invariant
            done <= count,
            keys@ == repeated(press(direction.key(), modifiers), done as nat),
        decreases count - done,
    {
        let mut step = inject_arrow(direction, modifiers);
        keys.append(&mut step);
        done += 1;
    }
    keys
}

/// Modifiers for plain cursor movement.
fn plain_modifiers(select: bool) -> (modifiers: Modifiers)
    ensures
        modifiers == plain(select),
{
    Modifiers { shift: select, control: false, option: false, command: false, caps_lock: false }
}

/// Modifiers for movement by word or paragraph.
fn word_modifiers(select: bool) -> (modifiers: Modifiers)
    ensures
        modifiers == by_word(select),
{
    Modifiers { shift: select, control: false, option: true, command: false, caps_lock: false }
}

/// Modifiers for movement to the end of a line or of the document.
fn edge_modifiers(select: bool) -> (modifiers: Modifiers)
    ensures
        modifiers == to_edge(select),
{
    Modifiers { shift: select, control: false, option: false, command: true, caps_lock: false }
}

/// Modifiers of the clipboard and undo shortcuts.
fn shortcut_modifiers() -> (modifiers: Modifiers)
    ensures
        modifiers == shortcut(),
{
    Modifiers { shift: false, control: false, option: false, command: true, caps_lock: false }
}

/// Cursor left (`h`): Left, `count` times.
pub fn cursor_left(count: u32, select: bool) -> (keys: Vec<InjectedKey>)
    ensures
        keys@ == repeated(press(KeyCode::Left, plain(select)), count as nat),
{
    arrow_presses(ArrowDirection::Left, plain_modifiers(select), count)
}

/// Cursor right (`l`): Right, `count` times.
pub fn cursor_right(count: u32, select: bool) -> (keys: Vec<InjectedKey>)
    ensures
        keys@ == repeated(press(KeyCode::Right, plain(select)), count as nat),
{
    arrow_presses(ArrowDirection::Right, plain_modifiers(select), count)
}

/// Cursor up (`k`): Up, `count` times.
pub fn cursor_up(count: u32, select: bool) -> (keys: Vec<InjectedKey>)
    ensures
        keys@ == repeated(press(KeyCode::Up, plain(select)), count as nat),
{
    arrow_presses(ArrowDirection::Up, plain_modifiers(select), count)
}

/// Cursor down (`j`): Down, `count` times.
pub fn cursor_down(count: u32, select: bool) -> (keys: Vec<InjectedKey>)
    ensures
        keys@ == repeated(press(KeyCode::Down, plain(select)), count as nat),
{
    arrow_presses(ArrowDirection::Down, plain_modifiers(select), count)
}

/// Back by words (`b`): Option+Left, `count` times.
pub fn word_backward(count: u32, select: bool) -> (keys: Vec<InjectedKey>)
    ensures
        keys@ == repeated(press(KeyCode::Left, by_word(select)), count as nat),
{
    arrow_presses(ArrowDirection::Left, word_modifiers(select), count)
}

/// Forward by words (`w`, `e`): Option+Right, `count` times.
pub fn word_forward(count: u32, select: bool) -> (keys: Vec<InjectedKey>)
    ensures
        keys@ == repeated(press(KeyCode::Right, by_word(select)), count as nat),
{
    arrow_presses(ArrowDirection::Right, word_modifiers(select), count)
}

/// Start of line (`0`, `^`): Command+Left.
pub fn line_start(select: bool) -> (keys: Vec<InjectedKey>)
    ensures
        keys@ == press(KeyCode::Left, to_edge(select)),
{
    inject_arrow(ArrowDirection::Left, edge_modifiers(select))
}

/// End of line (`$`): Command+Right.
pub fn line_end(select: bool) -> (keys: Vec<InjectedKey>)
    ensures
        keys@ == press(KeyCode::Right, to_edge(select)),
{
    inject_arrow(ArrowDirection::Right, edge_modifiers(select))
}

/// Start of document (`gg`): Command+Up.
pub fn document_start(select: bool) -> (keys: Vec<InjectedKey>)
    ensures
        keys@ == press(KeyCode::Up, to_edge(select)),
{
    inject_arrow(ArrowDirection::Up, edge_modifiers(select))
}

/// End of document (`G`): Command+Down.
pub fn document_end(select: bool) -> (keys: Vec<InjectedKey>)
    ensures
        keys@ == press(KeyCode::Down, to_edge(select)),
{
    inject_arrow(ArrowDirection::Down, edge_modifiers(select))
}

/// Page up (`Ctrl+b`, `Ctrl+u`): the Page Up key.
pub fn page_up(select: bool) -> (keys: Vec<InjectedKey>)
    ensures
        keys@ == press(KeyCode::PageUp, plain(select)),
{
    inject_key_press(KeyCode::PageUp, plain_modifiers(select))
}

/// Page down (`Ctrl+f`, `Ctrl+d`): the Page Down key.
pub fn page_down(select: bool) -> (keys: Vec<InjectedKey>)
    ensures
        keys@ == press(KeyCode::PageDown, plain(select)),
{
    inject_key_press(KeyCode::PageDown, plain_modifiers(select))
}

/// Delete the character under the cursor (`x`): forward delete.
pub fn delete_char() -> (keys: Vec<InjectedKey>)
    ensures
        keys@ == press(KeyCode::ForwardDelete, Modifiers::none()),
{
    inject_key_press(KeyCode::ForwardDelete, plain_modifiers(false))
}

/// Delete the character before the cursor (`X`): backspace.
pub fn backspace() -> (keys: Vec<InjectedKey>)
    ensures
        keys@ == press(KeyCode::Delete, Modifiers::none()),
{
    inject_key_press(KeyCode::Delete, plain_modifiers(false))
}

/// Cut the selection: Command+X.
pub fn cut() -> (keys: Vec<InjectedKey>)
    ensures
        keys@ == press(KeyCode::X, shortcut()),
{
    inject_key_press(KeyCode::X, shortcut_modifiers())
}

/// Copy the selection: Command+C.
pub fn copy() -> (keys: Vec<InjectedKey>)
    ensures
        keys@ == press(KeyCode::C, shortcut()),
{
    inject_key_press(KeyCode::C, shortcut_modifiers())
}

/// Paste: Command+V.
pub fn paste() -> (keys: Vec<InjectedKey>)
    ensures
        keys@ == press(KeyCode::V, shortcut()),
{
    inject_key_press(KeyCode::V, shortcut_modifiers())
}

/// Undo: Command+Z.
pub fn undo() -> (keys: Vec<InjectedKey>)
    ensures
        keys@ == press(KeyCode::Z, shortcut()),
{
    inject_key_press(KeyCode::Z, shortcut_modifiers())
}

/// Redo: Command+Shift+Z.
pub fn redo() -> (keys: Vec<InjectedKey>)
    ensures
        keys@ == press(KeyCode::Z, to_edge(true)),
{
    inject_key_press(KeyCode::Z, edge_modifiers(true))
}

/// Open a line below (`o`): end of line, Return.
pub fn new_line_below() -> (keys: Vec<InjectedKey>)
    ensures
        keys@ == new_line_below_keys(),
{
    let mut keys = line_end(false);
    let mut enter = inject_key_press(KeyCode::Return, plain_modifiers(false));
    keys.append(&mut enter);
    keys
}

/// Open a line above (`O`): start of line, Return, up.
pub fn new_line_above() -> (keys: Vec<InjectedKey>)
    ensures
        keys@ == new_line_above_keys(),
{
    let mut keys = line_start(false);
    let mut enter = inject_key_press(KeyCode::Return, plain_modifiers(false));
    keys.append(&mut enter);
    let mut up = cursor_up(1, false);
    proof {
        lemma_repeated_once(press(KeyCode::Up, plain(false)));
    }
    keys.append(&mut up);
    keys
}

/// Up by paragraphs (`{`): Option+Up, `count` times.
pub fn paragraph_up(count: u32, select: bool) -> (keys: Vec<InjectedKey>)
    ensures
        keys@ == repeated(press(KeyCode::Up, by_word(select)), count as nat),
{
    arrow_presses(ArrowDirection::Up, word_modifiers(select), count)
}

/// Down by paragraphs (`}`): Option+Down, `count` times.
pub fn paragraph_down(count: u32, select: bool) -> (keys: Vec<InjectedKey>)
    ensures
        keys@ == repeated(press(KeyCode::Down, by_word(select)), count as nat),
{
    arrow_presses(ArrowDirection::Down, word_modifiers(select), count)
}

/// Join the next line to this one (`J`): end of line, delete the line break,
/// type a space.
pub fn join_lines() -> (keys: Vec<InjectedKey>)
    ensures
        keys@ == join_lines_keys(),
{
    let mut keys = line_end(false);
    let mut delete = delete_char();
    keys.append(&mut delete);
    let mut space = inject_key_press(KeyCode::Space, plain_modifiers(false));
    keys.append(&mut space);
    keys
}

/// Select the word under the cursor (`iw`).
pub fn select_inner_word() -> (keys: Vec<InjectedKey>)
    ensures
        keys@ == select_inner_word_keys(),
{
    let mut keys = word_backward(1, false);
    let mut forward = word_forward(1, true);
    proof {
        lemma_repeated_once(press(KeyCode::Left, by_word(false)));
        lemma_repeated_once(press(KeyCode::Right, by_word(true)));
    }
    keys.append(&mut forward);
    keys
}

/// Select the word under the cursor and the character after it (`aw`).
pub fn select_around_word() -> (keys: Vec<InjectedKey>)
    ensures
        keys@ == select_around_word_keys(),
{
    let mut keys = select_inner_word();
    let mut right = cursor_right(1, true);
    proof {
        lemma_repeated_once(press(KeyCode::Right, plain(true)));
    }
    keys.append(&mut right);
    keys
}

/// Indent the line (`>>`): start of line, Tab.
pub fn indent_line() -> (keys: Vec<InjectedKey>)
    ensures
        keys@ == indent_line_keys(),
{
    let mut keys = line_start(false);
    let mut tab = inject_key_press(KeyCode::Tab, plain_modifiers(false));
    keys.append(&mut tab);
    keys
}

/// Outdent the line (`<<`): start of line, Shift+Tab.
pub fn outdent_line() -> (keys: Vec<InjectedKey>)
    ensures
        keys@ == outdent_line_keys(),
{
    let mut keys = line_start(false);
    let mut tab = inject_key_press(KeyCode::Tab, plain_modifiers(true));
    keys.append(&mut tab);
    keys
}

/// Type the character of a key, shifted or not.
pub fn type_char(keycode: KeyCode, shift: bool) -> (keys: Vec<InjectedKey>)
    ensures
        keys@ == press(keycode, plain(shift)),
{
    inject_key_press(keycode, plain_modifiers(shift))
}

/// A block repeated once is the block.
pub proof fn lemma_repeated_once(block: Seq<InjectedKey>)
    ensures
        repeated(block, 1) == block,
{
    reveal_with_fuel(repeated, 2);
    assert(repeated(block, 1) =~= block);
}

/// Whether every key of a sequence carries the injection marker.
pub open spec fn all_marked(keys: Seq<InjectedKey>) -> bool {
    forall|i: int| 0 <= i < keys.len() ==> (#[trigger] keys[i]).user_data == INJECTED_EVENT_MARKER
}

/// Both transitions of a key press carry the injection marker.
pub broadcast proof fn lemma_press_is_marked(keycode: KeyCode, modifiers: Modifiers)
    ensures
        #[trigger] all_marked(press(keycode, modifiers)),
{
}

/// Two marked sequences in a row form a marked sequence.
pub broadcast proof fn lemma_concat_is_marked(first: Seq<InjectedKey>, second: Seq<InjectedKey>)
    requires
        all_marked(first),
        all_marked(second),
    ensures
        #[trigger] all_marked(first + second),
{
}

/// A marked block, repeated, is a marked sequence.
pub broadcast proof fn lemma_repeated_is_marked(block: Seq<InjectedKey>, times: nat)
    requires
        all_marked(block),
    ensures
        #[trigger] all_marked(repeated(block, times)),
    decreases times,
{
    if times > 0 {
        lemma_repeated_is_marked(block, (times - 1) as nat);
        lemma_concat_is_marked(repeated(block, (times - 1) as nat), block);
    }
}

} // verus!
