use vstd::prelude::*;

verus! {

/// Which of the two scenes is on screen.
#[derive(Clone, Copy, Debug, PartialEq, Eq, Structural)]
pub enum SceneKind {
    Interactive,
    Gallery,
}

/// The other scene.
pub open spec fn other_scene(s: SceneKind) -> SceneKind {
    match s {
        SceneKind::Interactive => SceneKind::Gallery,
        SceneKind::Gallery => SceneKind::Interactive,
    }
}

impl SceneKind {
    /// Tab switches between the editor and the gallery.
    pub fn toggled(self) -> (r: SceneKind)
        ensures
            r == other_scene(self),
    {
        match self {
            SceneKind::Interactive => SceneKind::Gallery,
            SceneKind::Gallery => SceneKind::Interactive,
        }
    }
}

/// A pressed key, as far as the controls tell keys apart.
#[derive(Clone, Debug, PartialEq, Eq)]
pub enum KeyInput {
    Escape,
    Tab,
    /// A key that produces text.
    Character(String),
    Other,
}

/// What a key press asks for.
#[derive(Clone, Copy, Debug, PartialEq, Eq, Structural)]
pub enum KeyAction {
    Exit,
    ToggleScene,
    CycleEdgeType,
    ResetCurve,
    Nothing,
}

/// The text of a key is exactly one of the two given characters.
pub open spec fn is_letter(text: Seq<char>, lower: char, upper: char) -> bool {
    text == seq![lower] || text == seq![upper]
}

/// The controls: Escape quits and Tab switches scenes anywhere; `e`/`E`
/// cycles the edge type and `r`/`R` resets the curve, both only in the
/// editor; every other key does nothing.
pub open spec fn action_for(scene: SceneKind, key: KeyInput) -> KeyAction {
    match key {
        KeyInput::Escape => KeyAction::Exit,
        KeyInput::Tab => KeyAction::ToggleScene,
        KeyInput::Character(s) => if is_letter(s@, 'e', 'E') {
            if scene == SceneKind::Interactive {
                KeyAction::CycleEdgeType
            } else {
                KeyAction::Nothing
            }
        } else if is_letter(s@, 'r', 'R') {
            if scene == SceneKind::Interactive {
                KeyAction::ResetCurve
            } else {
                KeyAction::Nothing
            }
        } else {
            KeyAction::Nothing
        },
        KeyInput::Other => KeyAction::Nothing,
    }
}

/// Whether `text` is exactly the character `lower` or exactly `upper`.
fn text_is_letter(text: &str, lower: char, upper: char) -> (r: bool)
    ensures
        r == is_letter(text@, lower, upper),
{
    if text.unicode_len() != 1 {
        proof {
            assert(text@.len() != 1);
            assert(seq![lower].len() == 1);
            assert(seq![upper].len() == 1);
        }
        return false;
    }
    let c = text.get_char(0);
    if c == lower {
        assert(text@ =~= seq![lower]);
        true
    } else if c == upper {
        assert(text@ =~= seq![upper]);
        true
    } else {
        assert(text@[0] != seq![lower][0]);
        assert(text@[0] != seq![upper][0]);
        false
    }
}

/// The action a pressed key asks for in the given scene.
pub fn key_action(scene: SceneKind, key: &KeyInput) -> (r: KeyAction)
    ensures
        r == action_for(scene, *key),
{
    match key {
        KeyInput::Escape => KeyAction::Exit,
        KeyInput::Tab => KeyAction::ToggleScene,
        KeyInput::Character(s) => {
            let text = s.as_str();
            if text_is_letter(text, 'e', 'E') {
                if scene == SceneKind::Interactive {
                    KeyAction::CycleEdgeType
                } else {
                    KeyAction::Nothing
                }
            } else if text_is_letter(text, 'r', 'R') {
                if scene == SceneKind::Interactive {
                    KeyAction::ResetCurve
                } else {
                    KeyAction::Nothing
                }
            } else {
                KeyAction::Nothing
            }
        },
        KeyInput::Other => KeyAction::Nothing,
    }
}

/// A window event, as far as the application tells events apart.
#[derive(Clone, Debug, PartialEq, Eq)]
pub enum WindowInput {
    CloseRequested,
    Resized { width: u32, height: u32 },
    CursorMoved,
    LeftButtonPressed,
    LeftButtonReleased,
    KeyPressed(KeyInput),
    RedrawRequested,
    Other,
}

/// What the application does in answer to a window event.
#[derive(Clone, Copy, Debug, PartialEq, Eq, Structural)]
pub enum WindowAction {
    Exit,
    /// Resize the drawing surface and the viewport.
    Resize { width: u32, height: u32 },
    /// Remember the cursor position; a dragged control point follows it
    /// when `drag` is set.
    TrackCursor { drag: bool },
    /// Grab the control point under the cursor.
    PressPoint,
    /// Let go of the dragged control point.
    ReleasePoint,
    /// Open the editor on the preset of the gallery cell under the cursor,
    /// if the cursor is over one.
    OpenCell,
    Key(KeyAction),
    Redraw,
    Nothing,
}

/// The application's answer to each window event: a close request quits; a
/// resize to a non-empty size resizes; cursor moves are always tracked and
/// drag a control point only in the editor; in the editor the left button
/// grabs and lets go, in the gallery a press opens the clicked cell; key presses go through the controls; a redraw
/// request redraws.
pub open spec fn window_action_for(scene: SceneKind, event: WindowInput) -> WindowAction {
    match event {
        WindowInput::CloseRequested => WindowAction::Exit,
        WindowInput::Resized { width, height } => if width != 0 && height != 0 {
            WindowAction::Resize { width, height }
        } else {
            WindowAction::Nothing
        },
        WindowInput::CursorMoved => WindowAction::TrackCursor {
            drag: scene == SceneKind::Interactive,
        },
        WindowInput::LeftButtonPressed => if scene == SceneKind::Interactive {
            WindowAction::PressPoint
        } else {
            WindowAction::OpenCell
        },
        WindowInput::LeftButtonReleased => if scene == SceneKind::Interactive {
            WindowAction::ReleasePoint
        } else {
            WindowAction::Nothing
        },
        WindowInput::KeyPressed(key) => WindowAction::Key(action_for(scene, key)),
        WindowInput::RedrawRequested => WindowAction::Redraw,
        WindowInput::Other => WindowAction::Nothing,
    }
}

/// The action a window event asks for in the given scene.
pub fn window_action(scene: SceneKind, event: &WindowInput) -> (r: WindowAction)
    ensures
        r == window_action_for(scene, *event),
{
    let interactive = scene == SceneKind::Interactive;
    match event {
        WindowInput::CloseRequested => WindowAction::Exit,
        WindowInput::Resized { width, height } => {
            if *width != 0 && *height != 0 {
                WindowAction::Resize { width: *width, height: *height }
            } else {
                WindowAction::Nothing
            }
        },
        WindowInput::CursorMoved => WindowAction::TrackCursor { drag: interactive },
        WindowInput::LeftButtonPressed => {
            if interactive {
                WindowAction::PressPoint
            } else {
                WindowAction::OpenCell
            }
        },
        WindowInput::LeftButtonReleased => {
            if interactive {
                WindowAction::ReleasePoint
            } else {
                WindowAction::Nothing
            }
        },
        WindowInput::KeyPressed(key) => WindowAction::Key(key_action(scene, key)),
        WindowInput::RedrawRequested => WindowAction::Redraw,
        WindowInput::Other => WindowAction::Nothing,
    }
}

/// `samples[j]` is a largest value and every earlier one is smaller: the
/// element that a pairwise search replacing the best only by a strictly
/// larger candidate settles on.
pub open spec fn is_first_max(samples: Seq<u8>, j: int) -> bool {
    &&& 0 <= j < samples.len()
    &&& forall|i: int| 0 <= i < samples.len() ==> samples[i] <= samples[j]
    &&& forall|i: int| 0 <= i < j ==> samples[i] < samples[j]
}

/// Picks the GL configuration with the most multisampling samples, the
/// first of equally good ones; `samples[i]` is the sample count of the
/// `i`-th configuration offered.
pub fn gl_config_picker(samples: &Vec<u8>) -> (r: usize)
    requires
        samples.len() > 0,
    ensures
        is_first_max(samples@, r as int),
{
    let mut best: usize = 0;
    let n = samples.len();
    for i in 1..n
        invariant
            n == samples.len(),
            best < i,
            forall|m: int| 0 <= m < i ==> samples@[m] <= samples@[best as int],
            forall|m: int| 0 <= m < best ==> samples@[m] < samples@[best as int],
    {
        if samples[i] > samples[best] {
            best = i;
        }
    }
    best
}

/// Tab twice comes back to the same scene, and Tab always changes scene.
pub proof fn lemma_toggle_involutive(s: SceneKind)
    ensures
        other_scene(other_scene(s)) == s,
        other_scene(s) != s,
{
}

/// In the gallery only Escape and Tab do anything.
pub proof fn lemma_gallery_ignores_editor_keys(key: KeyInput)
    ensures
        action_for(SceneKind::Gallery, key) != KeyAction::CycleEdgeType,
        action_for(SceneKind::Gallery, key) != KeyAction::ResetCurve,
{
}

/// The gallery never drags a control point: no event there grabs, drags or
/// releases one, and a left press there opens the clicked cell.
pub proof fn lemma_gallery_never_drags(event: WindowInput)
    ensures
        window_action_for(SceneKind::Gallery, event) != WindowAction::PressPoint,
        window_action_for(SceneKind::Gallery, event) != WindowAction::ReleasePoint,
        window_action_for(SceneKind::Gallery, event) != (WindowAction::TrackCursor { drag: true }),
        event == WindowInput::LeftButtonPressed ==> window_action_for(SceneKind::Gallery, event)
            == WindowAction::OpenCell,
{
}

/// A gallery click on a preset's cell opens the editor loaded with that
/// preset; a click beside every preset leaves the gallery on screen.
/// `cell` is the preset under the cursor, if any.
pub open spec fn click_outcome(cell: Option<usize>) -> (SceneKind, Option<usize>) {
    match cell {
        Some(i) => (SceneKind::Interactive, Some(i)),
        None => (SceneKind::Gallery, None),
    }
}

/// The scene shown after a gallery click, and the preset the editor is
/// loaded with when it opens.
pub fn gallery_click(cell: Option<usize>) -> (r: (SceneKind, Option<usize>))
    ensures
        r == click_outcome(cell),
{
    match cell {
        Some(i) => (SceneKind::Interactive, Some(i)),
        None => (SceneKind::Gallery, None),
    }
}

/// A click on the cell where preset `idx` is drawn opens the editor on
/// exactly that preset.
pub proof fn lemma_click_opens_drawn_preset(idx: usize, count: usize)
    requires
        idx < count,
    ensures
        crate::gallery::cell_preset(
            (idx % crate::gallery::COLS) as int,
            (idx / crate::gallery::COLS) as int,
            count as int,
        ) == Some(idx as int),
        click_outcome(Some(idx)) == (SceneKind::Interactive, Some(idx)),
{
    crate::gallery::lemma_click_round_trip(idx as int, 0, 0, count as int);
}

/// Escape quits and Tab switches scenes in every scene.
pub proof fn lemma_escape_and_tab_everywhere(scene: SceneKind)
    ensures
        action_for(scene, KeyInput::Escape) == KeyAction::Exit,
        action_for(scene, KeyInput::Tab) == KeyAction::ToggleScene,
{
}

/// The case of a letter does not matter: `r` and `R` do the same, and so do
/// `e` and `E`, in every scene.
pub proof fn lemma_letter_case_does_not_matter(scene: SceneKind, lower: String, upper: String)
    ensures
        (lower@ == seq!['r'] && upper@ == seq!['R']) ==> action_for(scene, KeyInput::Character(lower))
            == action_for(scene, KeyInput::Character(upper)),
        (lower@ == seq!['e'] && upper@ == seq!['E']) ==> action_for(scene, KeyInput::Character(lower))
            == action_for(scene, KeyInput::Character(upper)),
{
    assert(seq!['r'] != seq!['e'] && seq!['r'] != seq!['E']) by {
        assert(seq!['r'][0] != seq!['e'][0]);
        assert(seq!['r'][0] != seq!['E'][0]);
    }
    assert(seq!['R'] != seq!['e'] && seq!['R'] != seq!['E']) by {
        assert(seq!['R'][0] != seq!['e'][0]);
        assert(seq!['R'][0] != seq!['E'][0]);
    }
}

/// In the editor, `e` or `E` cycles the edge type and `r` or `R` resets the
/// curve.
pub proof fn lemma_editor_letters(text: String)
    ensures
        (text@ == seq!['e'] || text@ == seq!['E']) ==> action_for(
            SceneKind::Interactive,
            KeyInput::Character(text),
        ) == KeyAction::CycleEdgeType,
        (text@ == seq!['r'] || text@ == seq!['R']) ==> action_for(
            SceneKind::Interactive,
            KeyInput::Character(text),
        ) == KeyAction::ResetCurve,
{
    assert(seq!['r'] != seq!['e'] && seq!['r'] != seq!['E']) by {
        assert(seq!['r'][0] != seq!['e'][0]);
        assert(seq!['r'][0] != seq!['E'][0]);
    }
    assert(seq!['R'] != seq!['e'] && seq!['R'] != seq!['E']) by {
        assert(seq!['R'][0] != seq!['e'][0]);
        assert(seq!['R'][0] != seq!['E'][0]);
    }
}

/// In the gallery every key but Escape and Tab does nothing, and in any
/// scene a text that is none of `e`, `E`, `r`, `R` does nothing.
pub proof fn lemma_other_keys_do_nothing(scene: SceneKind, key: KeyInput, text: String)
    ensures
        !(key is Escape) && !(key is Tab) ==> action_for(SceneKind::Gallery, key)
            == KeyAction::Nothing,
        !(text@ == seq!['e'] || text@ == seq!['E'] || text@ == seq!['r'] || text@ == seq!['R'])
            ==> action_for(scene, KeyInput::Character(text)) == KeyAction::Nothing,
        action_for(scene, KeyInput::Other) == KeyAction::Nothing,
{
}

/// Only cursor moves, the left button and the key controls depend on the
/// scene: closing quits, a non-empty resize resizes, an empty one is
/// ignored and a redraw request redraws, in every scene; a key press does
/// what the key controls say.
pub proof fn lemma_scene_independent_events(scene: SceneKind, width: u32, height: u32, key: KeyInput)
    ensures
        window_action_for(scene, WindowInput::CloseRequested) == WindowAction::Exit,
        window_action_for(scene, WindowInput::RedrawRequested) == WindowAction::Redraw,
        window_action_for(scene, WindowInput::Other) == WindowAction::Nothing,
        (width != 0 && height != 0) ==> window_action_for(
            scene,
            WindowInput::Resized { width, height },
        ) == (WindowAction::Resize { width, height }),
        (width == 0 || height == 0) ==> window_action_for(
            scene,
            WindowInput::Resized { width, height },
        ) == WindowAction::Nothing,
        window_action_for(scene, WindowInput::KeyPressed(key)) == WindowAction::Key(
            action_for(scene, key),
        ),
        window_action_for(scene, WindowInput::CursorMoved) == (WindowAction::TrackCursor {
            drag: scene == SceneKind::Interactive,
        }),
{
}

/// In the editor the left button grabs on press and lets go on release.
pub proof fn lemma_editor_left_button()
    ensures
        window_action_for(SceneKind::Interactive, WindowInput::LeftButtonPressed)
            == WindowAction::PressPoint,
        window_action_for(SceneKind::Interactive, WindowInput::LeftButtonReleased)
            == WindowAction::ReleasePoint,
        window_action_for(SceneKind::Gallery, WindowInput::LeftButtonReleased)
            == WindowAction::Nothing,
{
}

/// The picked configuration has the most samples of all, and every
/// configuration before it has strictly fewer.
pub proof fn lemma_picked_config_is_first_best(samples: Seq<u8>, j: int)
    requires
        is_first_max(samples, j),
    ensures
        0 <= j < samples.len(),
        forall|i: int| 0 <= i < samples.len() ==> samples[i] <= samples[j],
        forall|i: int| 0 <= i < j ==> samples[i] < samples[j],
{
}

/// The scene switch always changes the scene: Tab from the editor shows the
/// gallery and from the gallery the editor.
pub proof fn lemma_toggle_targets()
    ensures
        other_scene(SceneKind::Interactive) == SceneKind::Gallery,
        other_scene(SceneKind::Gallery) == SceneKind::Interactive,
{
}

/// A gallery click opens the editor exactly when it hits a preset, and the
/// editor is loaded with the clicked preset.
pub proof fn lemma_click_outcome(cell: Option<usize>)
    ensures
        click_outcome(cell).0 == SceneKind::Interactive <==> cell is Some,
        click_outcome(cell).1 == cell,
{
}

/// The picked configuration is determined by the sample counts.
pub proof fn lemma_first_max_unique(samples: Seq<u8>, j1: int, j2: int)
    requires
        is_first_max(samples, j1),
        is_first_max(samples, j2),
    ensures
        j1 == j2,
{
    if j1 < j2 {
        assert(samples[j1] < samples[j2]);
        assert(samples[j2] <= samples[j1]);
    } else if j2 < j1 {
        assert(samples[j2] < samples[j1]);
        assert(samples[j1] <= samples[j2]);
    }
}

} // verus!
