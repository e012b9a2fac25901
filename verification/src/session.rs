//! The browser's session: its state, the messages that change it, and the
//! work each message asks of the surrounding program.
//!
//! `State::update` never reads a file, a clock or a dialog: a message
//! carries what was read, and the returned `Command` names what is to be
//! done next and answered with another message.

use crate::file_tree::{
    find_entry_among, forest_find, forest_replace_first, listed_children, node_clicked,
    spec_listed_children, views, DirEntry, FileTreeEntry, TreeView,
};
use crate::path::{
    ascii_lowered, chars_of, extension, is_word, parent, same_text, spec_extension, spec_parent,
};
use crate::raster::SourceRaster;
use crate::render::{RenderTier, RenderedBuffer};
use crate::resampling::ResamplingType;
use crate::smart_directory::{RecentItemView, RecentManager};
use crate::throttle::{step, DragSource, InputEvent, InteractionState, Phase, Trigger};
use crate::thumbnail::{Thumbnail, ThumbnailCache};
use crate::viewport::{
    saturated, saturating_difference, spec_clamped_steps, PanOffset, ZoomFactor, ZOOM_UNIT,
};
use vstd::arithmetic::div_mod::{lemma_fundamental_div_mod, lemma_fundamental_div_mod_converse};
use vstd::prelude::*;

verus! {

/// A pointer position in whole display pixels.
#[derive(Clone, Copy, Debug, PartialEq, Eq, Structural)]
pub struct Position {
    pub x: i32,
    pub y: i32,
}

/// A button of the pointer.
#[derive(Clone, Copy, Debug, PartialEq, Eq, Structural)]
pub enum MouseButton {
    Left,
    Right,
    Middle,
    /// Any further button.
    Extra,
}

/// The settings of one render pass.
#[derive(Clone, Copy, Debug)]
pub struct RenderRequest {
    pub zoom: ZoomFactor,
    pub pan: PanOffset,
    pub algorithm: ResamplingType,
    pub tier: RenderTier,
}

/// What the surrounding program is to do after a message was taken in.
#[derive(Debug)]
pub enum Command {
    /// Nothing.
    Nothing,
    /// Read and decode the file at the path, and answer with
    /// `Message::LoadImage`.
    LoadImage(String),
    /// Make the thumbnail of the file at the path, and answer with
    /// `Message::ThumbnailLoaded`.
    LoadThumbnail(String),
    /// Render the loaded image with these settings, off the event loop, and
    /// answer with `Message::ImageResized`.
    Render(RenderRequest),
    /// Wait for `delay_ms` milliseconds and answer with
    /// `Message::FinalizeDragging`.
    ScheduleFinalize { delay_ms: u64 },
    /// Store the list of recent images and send `Message::UploadToCloud`
    /// for the path.
    ImageLoaded(String),
}

/// An input to the session.
#[derive(Debug)]
pub enum Message {
    /// The directory `path` was chosen; `is_dir` tells whether it is one.
    ChangeDirectory { path: String, is_dir: bool },
    /// The file dialog was closed with `picked`; `home` is the user's home
    /// directory.
    SelectImage { picked: Option<String>, home: String },
    NoOp,
    /// The tree node `path` was clicked; `listing` holds the entries of that
    /// directory, or `None` where it could not be listed.
    ExpandDirectory { path: String, listing: Option<Vec<DirEntry>> },
    PickImage(String),
    SelectFolder(String),
    PickNextImage,
    PickPreviousImage,
    OpenResamplingBar,
    /// The zoom slider moved to `value` at the time `now`.
    SliderChanged { value: u8, now: u64 },
    SliderReleased { now: u64 },
    ResamplingTypeChanged(ResamplingType),
    /// A render pass has finished.
    ImageResized(RenderedBuffer),
    /// The file at `path`, of `file_size` bytes, was read at the time
    /// `viewed_at` of the calendar clock, in milliseconds since the Unix
    /// epoch; `decoded` holds its image, or `None` where it could not be
    /// decoded.
    LoadImage { path: String, file_size: u64, viewed_at: i64, decoded: Option<SourceRaster> },
    LoadThumbnail(String),
    ThumbnailLoaded(String, Thumbnail),
    LoadScaledBytes,
    /// The timer of a release has run out at the time `now`.
    FinalizeDragging { now: u64 },
    ToggleHandTool,
    MousePressed(MouseButton),
    MouseReleased { button: MouseButton, now: u64 },
    MouseMoved { position: Position, now: u64 },
    ToggleFullscreen,
    EscPressed,
    UploadToCloud(String),
}

/// What the display shows.
#[derive(Debug)]
pub enum Display<'a> {
    /// The image file itself, if one is selected.
    File(Option<&'a String>),
    /// A rendered buffer.
    Rendered(&'a Vec<u8>),
}

/// The state of a browsing session.
#[derive(Debug)]
pub struct State {
    pub current_path: String,
    pub current_image: Option<String>,
    pub root_file_tree_entry: Vec<FileTreeEntry>,
    /// The images of the directory that was opened last.
    pub image_collection: Vec<String>,
    pub current_image_index: usize,
    pub resampling_bar_opened: bool,
    pub zoom: ZoomFactor,
    pub resampling_type: ResamplingType,
    /// The loaded image, as it was decoded.
    pub original: Option<SourceRaster>,
    pub thumbnail_cache: ThumbnailCache,
    pub interaction: InteractionState,
    /// The last preview that was accepted; empty where there is none.
    pub preview_scaled_bytes: Vec<u8>,
    /// The last final render; empty where there is none.
    pub final_scaled_bytes: Vec<u8>,
    pub is_resampling_mode: bool,
    pub hand_tool_active: bool,
    /// The pointer's button is held on the content.
    pub is_panning: bool,
    pub pan_start_position: Option<Position>,
    pub pan_offset: PanOffset,
    pub recent_manager: RecentManager,
    pub is_fullscreen: bool,
}

/// The index after `index` in a collection of `len` images, the first after
/// the last.
pub open spec fn spec_next_index(index: int, len: int) -> int {
    (index + 1) % len
}

/// The index before `index` in a collection of `len` images, the last
/// before the first; the last as well where `index` lies beyond the
/// collection.
pub open spec fn spec_previous_index(index: int, len: int) -> int {
    if index == 0 || index > len {
        len - 1
    } else {
        index - 1
    }
}

/// The index after `index` in a collection of `len` images.
pub fn next_index(index: usize, len: usize) -> (next: usize)
    requires
        len >= 1,
    ensures
        next == spec_next_index(index as int, len as int),
        next < len,
{
    let within: usize = index % len;
    proof {
        let d = len as int;
        let q = index as int / d;
        lemma_fundamental_div_mod(index as int, d);
        if within + 1 == len {
            assert(index + 1 == (q + 1) * d + 0) by (nonlinear_arith)
                requires
                    index == d * q + within,
                    within + 1 == d,
            ;
            lemma_fundamental_div_mod_converse(index + 1, d, q + 1, 0);
        } else {
            assert(index + 1 == q * d + (within + 1)) by (nonlinear_arith)
                requires
                    index == d * q + within,
            ;
            lemma_fundamental_div_mod_converse(index + 1, d, q, within + 1);
        }
    }
    if within + 1 == len {
        0
    } else {
        within + 1
    }
}

/// The index before `index` in a collection of `len` images.
pub fn previous_index(index: usize, len: usize) -> (previous: usize)
    requires
        len >= 1,
    ensures
        previous == spec_previous_index(index as int, len as int),
        previous < len,
{
    if index == 0 || index > len {
        len - 1
    } else {
        index - 1
    }
}

/// The pan offset after the pointer dragged the content from `from` to
/// `to`.
pub open spec fn spec_dragged(pan: PanOffset, from: Position, to: Position) -> PanOffset {
    PanOffset {
        x: saturated(pan.x + saturated(to.x - from.x)) as i32,
        y: saturated(pan.y + saturated(to.y - from.y)) as i32,
    }
}

/// The session after the throttle took in `event`, and what that
/// triggered.
pub open spec fn throttled(pre: State, event: InputEvent) -> (State, Trigger) {
    let (interaction, trigger) = step(pre.interaction, event);
    (State { interaction, ..pre }, trigger)
}

/// The zoom slider moved: the zoom follows it, held within the slider's
/// domain, the session shows rendered buffers from now on, and the throttle
/// decides on a preview.
pub open spec fn slider_changed(
    pre: State,
    value: u8,
    now: u64,
    post: State,
    command: Command,
) -> bool {
    let (moved, trigger) = throttled(
        pre,
        InputEvent::Move { source: DragSource::Slider, now },
    );
    &&& post == State { zoom: post.zoom, is_resampling_mode: true, ..moved }
    &&& post.zoom.spec_steps() == spec_clamped_steps(value)
    &&& command == post.spec_command_for(trigger)
}

/// The zoom slider was released: the throttle starts the quiescence
/// period.
pub open spec fn slider_released(pre: State, now: u64, post: State, command: Command) -> bool {
    let (released, trigger) = throttled(pre, InputEvent::Release { now });
    &&& post == released
    &&& command == post.spec_command_for(trigger)
}

/// The timer of a release ran out: the throttle decides on the final
/// pass.
pub open spec fn finalize_dragging(pre: State, now: u64, post: State, command: Command) -> bool {
    let (settled, trigger) = throttled(pre, InputEvent::QuiescenceElapsed { now });
    &&& post == settled
    &&& command == post.spec_command_for(trigger)
}

/// Another filter was selected: it is the session's filter from now on, and
/// the throttle decides on a final pass with it.
pub open spec fn resampling_type_changed(
    pre: State,
    selected: ResamplingType,
    post: State,
    command: Command,
) -> bool {
    let (told, trigger) = throttled(pre, InputEvent::AlgorithmChanged);
    &&& post == State { resampling_type: selected, ..told }
    &&& command == post.spec_command_for(trigger)
}

/// A render pass finished.  A final buffer is kept as the final buffer.  A
/// preview is kept as the preview while content is dragged; one that
/// arrives after the drag has ended is dropped and changes nothing.
pub open spec fn image_resized(
    pre: State,
    buffer: RenderedBuffer,
    post: State,
    command: Command,
) -> bool {
    &&& command == Command::Nothing
    &&& match buffer.tier {
        RenderTier::Final => post == State { final_scaled_bytes: buffer.bytes, ..pre },
        RenderTier::Preview => if pre.interaction.phase.spec_is_dragging() {
            post == State { preview_scaled_bytes: buffer.bytes, ..pre }
        } else {
            post == pre
        },
    }
}

/// A preview that finishes after the session has left the dragging phase
/// changes nothing: neither the buffers nor what is displayed.
pub proof fn law_stale_preview_is_dropped(
    pre: State,
    buffer: RenderedBuffer,
    post: State,
    command: Command,
)
    requires
        updated(pre, Message::ImageResized(buffer), post, command),
        buffer.tier == RenderTier::Preview,
        !pre.interaction.phase.spec_is_dragging(),
    ensures
        post == pre,
        tier_buffer(post) == tier_buffer(pre),
        shows_render(post) == shows_render(pre),
{
}

/// A final buffer never replaces the preview, and a preview never the
/// final buffer.
pub proof fn law_tiers_keep_apart(pre: State, buffer: RenderedBuffer, post: State, command: Command)
    requires
        updated(pre, Message::ImageResized(buffer), post, command),
    ensures
        buffer.tier == RenderTier::Final ==> post.preview_scaled_bytes == pre.preview_scaled_bytes,
        buffer.tier == RenderTier::Preview ==> post.final_scaled_bytes == pre.final_scaled_bytes,
{
}

/// The final buffer is asked to be made anew: a final pass where there is
/// one to replace.
pub open spec fn load_scaled_bytes(pre: State, post: State, command: Command) -> bool {
    &&& post == pre
    &&& command == (if pre.final_scaled_bytes@.len() > 0 {
        pre.spec_command_for(Trigger::Final)
    } else {
        Command::Nothing
    })
}

/// The hand tool was switched on or off.
pub open spec fn toggle_hand_tool(pre: State, post: State, command: Command) -> bool {
    &&& post == State { hand_tool_active: !pre.hand_tool_active, ..pre }
    &&& command == Command::Nothing
}

/// A pointer button went down: with the hand tool on, the left button
/// takes hold of the content.
pub open spec fn mouse_pressed(
    pre: State,
    button: MouseButton,
    post: State,
    command: Command,
) -> bool {
    &&& command == Command::Nothing
    &&& post == (if pre.hand_tool_active && button == MouseButton::Left {
        State { is_panning: true, pan_start_position: None, ..pre }
    } else {
        pre
    })
}

/// A pointer button went up: with the hand tool on, the left button lets
/// go of the content, and the throttle starts the quiescence period.
pub open spec fn mouse_released(
    pre: State,
    button: MouseButton,
    now: u64,
    post: State,
    command: Command,
) -> bool {
    if pre.hand_tool_active && button == MouseButton::Left {
        let (released, trigger) = throttled(pre, InputEvent::Release { now });
        &&& post == State { is_panning: false, pan_start_position: None, ..released }
        &&& command == post.spec_command_for(trigger)
    } else {
        post == pre && command == Command::Nothing
    }
}

/// The pointer moved.  While it holds the content, the first move marks
/// where the drag began; every further move pans by the way the pointer
/// went, and the throttle decides on a preview.
pub open spec fn mouse_moved(
    pre: State,
    position: Position,
    now: u64,
    post: State,
    command: Command,
) -> bool {
    if pre.hand_tool_active && pre.is_panning {
        match pre.pan_start_position {
            Some(last) => {
                let (moved, trigger) = throttled(
                    pre,
                    InputEvent::Move { source: DragSource::Pointer, now },
                );
                &&& post == State {
                    pan_offset: spec_dragged(pre.pan_offset, last, position),
                    pan_start_position: Some(position),
                    ..moved
                }
                &&& command == post.spec_command_for(trigger)
            },
            None => {
                &&& post == State { pan_start_position: Some(position), ..pre }
                &&& command == Command::Nothing
            },
        }
    } else {
        post == pre && command == Command::Nothing
    }
}

impl State {
    /// The settings of a pass of `tier` with the session's zoom, pan and
    /// filter.
    pub open spec fn spec_request(self, tier: RenderTier) -> RenderRequest {
        RenderRequest {
            zoom: self.zoom,
            pan: self.pan_offset,
            algorithm: self.resampling_type,
            tier,
        }
    }

    /// The command that carries out what the throttle triggered: a render
    /// pass of the triggered tier where an image is loaded, and the timer of
    /// a release.
    pub open spec fn spec_command_for(self, trigger: Trigger) -> Command {
        match trigger {
            Trigger::Hold => Command::Nothing,
            Trigger::Preview => if self.original is Some {
                Command::Render(self.spec_request(RenderTier::Preview))
            } else {
                Command::Nothing
            },
            Trigger::Final => if self.original is Some {
                Command::Render(self.spec_request(RenderTier::Final))
            } else {
                Command::Nothing
            },
            Trigger::ScheduleFinal { delay_ms } => Command::ScheduleFinalize { delay_ms },
        }
    }

    /// The command that carries out what the throttle triggered.
    pub fn command_for(&self, trigger: Trigger) -> (command: Command)
        ensures
            command == self.spec_command_for(trigger),
    {
        match trigger {
            Trigger::Hold => Command::Nothing,
            Trigger::Preview => {
                if self.original.is_some() {
                    Command::Render(
                        RenderRequest {
                            zoom: self.zoom,
                            pan: self.pan_offset,
                            algorithm: self.resampling_type,
                            tier: RenderTier::Preview,
                        },
                    )
                } else {
                    Command::Nothing
                }
            },
            Trigger::Final => {
                if self.original.is_some() {
                    Command::Render(
                        RenderRequest {
                            zoom: self.zoom,
                            pan: self.pan_offset,
                            algorithm: self.resampling_type,
                            tier: RenderTier::Final,
                        },
                    )
                } else {
                    Command::Nothing
                }
            },
            Trigger::ScheduleFinal { delay_ms } => Command::ScheduleFinalize { delay_ms },
        }
    }

    fn on_slider_changed(&mut self, value: u8, now: u64) -> (command: Command)
        ensures
            slider_changed(*old(self), value, now, *final(self), command),
    {
        self.zoom = ZoomFactor::clamped(value);
        self.is_resampling_mode = true;
        let trigger = self.interaction.handle(
            InputEvent::Move { source: DragSource::Slider, now },
        );
        self.command_for(trigger)
    }

    fn on_slider_released(&mut self, now: u64) -> (command: Command)
        ensures
            slider_released(*old(self), now, *final(self), command),
    {
        let trigger = self.interaction.handle(InputEvent::Release { now });
        self.command_for(trigger)
    }

    fn on_finalize_dragging(&mut self, now: u64) -> (command: Command)
        ensures
            finalize_dragging(*old(self), now, *final(self), command),
    {
        let trigger = self.interaction.handle(InputEvent::QuiescenceElapsed { now });
        self.command_for(trigger)
    }

    fn on_resampling_type_changed(&mut self, selected: ResamplingType) -> (command: Command)
        ensures
            resampling_type_changed(*old(self), selected, *final(self), command),
    {
        self.resampling_type = selected;
        let trigger = self.interaction.handle(InputEvent::AlgorithmChanged);
        self.command_for(trigger)
    }

    fn on_image_resized(&mut self, buffer: RenderedBuffer) -> (command: Command)
        ensures
            image_resized(*old(self), buffer, *final(self), command),
    {
        match buffer.tier {
            RenderTier::Final => {
                self.final_scaled_bytes = buffer.bytes;
            },
            RenderTier::Preview => {
                if self.interaction.phase.is_dragging() {
                    self.preview_scaled_bytes = buffer.bytes;
                }
            },
        }
        Command::Nothing
    }

    fn on_load_scaled_bytes(&mut self) -> (command: Command)
        ensures
            load_scaled_bytes(*old(self), *final(self), command),
    {
        if self.final_scaled_bytes.len() > 0 {
            self.command_for(Trigger::Final)
        } else {
            Command::Nothing
        }
    }

    fn on_toggle_hand_tool(&mut self) -> (command: Command)
        ensures
            toggle_hand_tool(*old(self), *final(self), command),
    {
        self.hand_tool_active = !self.hand_tool_active;
        Command::Nothing
    }

    fn on_mouse_pressed(&mut self, button: MouseButton) -> (command: Command)
        ensures
            mouse_pressed(*old(self), button, *final(self), command),
    {
        if self.hand_tool_active && button == MouseButton::Left {
            self.is_panning = true;
            self.pan_start_position = None;
        }
        Command::Nothing
    }

    fn on_mouse_released(&mut self, button: MouseButton, now: u64) -> (command: Command)
        ensures
            mouse_released(*old(self), button, now, *final(self), command),
    {
        if self.hand_tool_active && button == MouseButton::Left {
            self.is_panning = false;
            self.pan_start_position = None;
            let trigger = self.interaction.handle(InputEvent::Release { now });
            self.command_for(trigger)
        } else {
            Command::Nothing
        }
    }

    fn on_mouse_moved(&mut self, position: Position, now: u64) -> (command: Command)
        ensures
            mouse_moved(*old(self), position, now, *final(self), command),
    {
        if self.hand_tool_active && self.is_panning {
            match self.pan_start_position {
                Some(last) => {
                    let dx: i32 = saturating_difference(position.x, last.x);
                    let dy: i32 = saturating_difference(position.y, last.y);
                    self.pan_offset = self.pan_offset.translated(dx, dy);
                    self.pan_start_position = Some(position);
                    let trigger = self.interaction.handle(
                        InputEvent::Move { source: DragSource::Pointer, now },
                    );
                    self.command_for(trigger)
                },
                None => {
                    self.pan_start_position = Some(position);
                    Command::Nothing
                },
            }
        } else {
            Command::Nothing
        }
    }
}

/// The path of the directory of recent images in the tree.
pub open spec fn recents_path() -> Seq<char> {
    "__RECENTS__"@
}

/// `i` is the first position of `path` in `paths`.
pub open spec fn is_first_position(paths: Seq<String>, path: Seq<char>, i: int) -> bool {
    &&& 0 <= i < paths.len()
    &&& paths[i]@ == path
    &&& forall|j: int| 0 <= j < i ==> (#[trigger] paths[j])@ != path
}

/// `path` does not occur in `paths`.
pub open spec fn is_absent(paths: Seq<String>, path: Seq<char>) -> bool {
    forall|j: int| 0 <= j < paths.len() ==> (#[trigger] paths[j])@ != path
}

/// The text of an optional path, empty where there is none.
pub open spec fn text_or_empty(path: Option<String>) -> Seq<char> {
    match path {
        Some(p) => p@,
        None => Seq::empty(),
    }
}

/// `command` asks for the first thumbnail of the collection that the cache
/// lacks, or for nothing where it lacks none.
pub open spec fn asks_next_thumbnail(state: State, command: Command) -> bool {
    match command {
        Command::LoadThumbnail(path) => exists|i: int|
            {
                &&& 0 <= i < state.image_collection@.len()
                &&& path@ == (#[trigger] state.image_collection@[i])@
                &&& !state.thumbnail_cache@.dom().contains(path@)
                &&& forall|j: int|
                    0 <= j < i ==> state.thumbnail_cache@.dom().contains(
                        (#[trigger] state.image_collection@[j])@,
                    )
            },
        Command::Nothing => forall|j: int|
            0 <= j < state.image_collection@.len() ==> state.thumbnail_cache@.dom().contains(
                (#[trigger] state.image_collection@[j])@,
            ),
        _ => false,
    }
}

/// A directory was chosen: it is the current one where it is a directory.
pub open spec fn change_directory(
    pre: State,
    path: String,
    is_dir: bool,
    post: State,
    command: Command,
) -> bool {
    &&& command == Command::Nothing
    &&& post == (if is_dir {
        State { current_path: path, ..pre }
    } else {
        pre
    })
}

/// The file dialog was closed: what was picked is the current image, the
/// collection is emptied, and the picked file, or the empty path, is to be
/// loaded.
pub open spec fn select_image(
    pre: State,
    picked: Option<String>,
    home: String,
    post: State,
    command: Command,
) -> bool {
    &&& post == State {
        current_image: picked,
        current_path: home,
        image_collection: post.image_collection,
        current_image_index: 0,
        ..pre
    }
    &&& post.image_collection@.len() == 0
    &&& command matches Command::LoadImage(path) && path@ == text_or_empty(picked)
}

/// An image of the tree or the collection was picked: it is the current
/// image, at its first position in the collection or at position 0, its
/// directory is the current one, and it is to be loaded.
pub open spec fn pick_image(pre: State, path: String, post: State, command: Command) -> bool {
    &&& post == State {
        current_path: post.current_path,
        current_image: Some(path),
        current_image_index: post.current_image_index,
        ..pre
    }
    &&& post.current_path@ == (match spec_parent(path@) {
        Some(directory) => directory,
        None => path@,
    })
    &&& is_first_position(pre.image_collection@, path@, post.current_image_index as int) || (
    is_absent(pre.image_collection@, path@) && post.current_image_index == 0)
    &&& command matches Command::LoadImage(asked) && asked@ == path@
}

/// The session moved to the image at `index` of a collection that is not
/// empty, or stayed where the collection is; the current image, or the
/// empty path, is to be loaded.
pub open spec fn stepped_to(pre: State, index: int, post: State, command: Command) -> bool {
    &&& if pre.image_collection@.len() > 0 {
        &&& post == State {
            current_image_index: index as usize,
            current_image: post.current_image,
            ..pre
        }
        &&& 0 <= index < pre.image_collection@.len()
        &&& post.current_image matches Some(path) && path@ == pre.image_collection@[index]@
    } else {
        post == pre
    }
    &&& command matches Command::LoadImage(asked) && asked@ == text_or_empty(post.current_image)
}

/// The next image of the collection was asked for.
pub open spec fn pick_next_image(pre: State, post: State, command: Command) -> bool {
    stepped_to(
        pre,
        spec_next_index(pre.current_image_index as int, pre.image_collection@.len() as int),
        post,
        command,
    )
}

/// The previous image of the collection was asked for.
pub open spec fn pick_previous_image(pre: State, post: State, command: Command) -> bool {
    stepped_to(
        pre,
        spec_previous_index(pre.current_image_index as int, pre.image_collection@.len() as int),
        post,
        command,
    )
}

/// The bar of the resampling controls was opened or closed.
pub open spec fn open_resampling_bar(pre: State, post: State, command: Command) -> bool {
    &&& post == State { resampling_bar_opened: !pre.resampling_bar_opened, ..pre }
    &&& command == Command::Nothing
}

/// Full screen was switched on or off.
pub open spec fn toggle_fullscreen(pre: State, post: State, command: Command) -> bool {
    &&& post == State { is_fullscreen: !pre.is_fullscreen, ..pre }
    &&& command == Command::Nothing
}

/// Escape was pressed: full screen is left.
pub open spec fn esc_pressed(pre: State, post: State, command: Command) -> bool {
    &&& post == State { is_fullscreen: false, ..pre }
    &&& command == Command::Nothing
}

/// A file was read for display.  Where it holds an image, the view is
/// recorded in the list of recent images and the session starts over on it:
/// the throttle idle, the zoom neutral, no pan, no buffers, nothing held.
/// Where it holds none, the session stays as it is.
pub open spec fn load_image(
    pre: State,
    path: String,
    file_size: u64,
    viewed_at: i64,
    decoded: Option<SourceRaster>,
    post: State,
    command: Command,
) -> bool {
    match decoded {
        Some(raster) => {
            &&& post == State {
                recent_manager: post.recent_manager,
                zoom: post.zoom,
                preview_scaled_bytes: post.preview_scaled_bytes,
                final_scaled_bytes: post.final_scaled_bytes,
                is_resampling_mode: false,
                pan_offset: PanOffset { x: 0, y: 0 },
                is_panning: false,
                pan_start_position: None,
                original: Some(raster),
                ..throttled(pre, InputEvent::ImageLoaded).0
            }
            &&& crate::smart_directory::recorded_at(
                pre.recent_manager@,
                path@,
                file_size as int,
                viewed_at as int,
                post.recent_manager@,
            )
            &&& post.zoom.spec_steps() == ZOOM_UNIT
            &&& post.preview_scaled_bytes@.len() == 0
            &&& post.final_scaled_bytes@.len() == 0
            &&& command matches Command::ImageLoaded(loaded) && loaded@ == path@
        },
        None => post == pre && command == Command::Nothing,
    }
}

/// A thumbnail was asked for: it is to be made.
pub open spec fn load_thumbnail(pre: State, path: String, post: State, command: Command) -> bool {
    &&& post == pre
    &&& command == Command::LoadThumbnail(path)
}

/// A thumbnail was made: it is cached for its path, and the next one that
/// the collection lacks is asked for.
pub open spec fn thumbnail_loaded(
    pre: State,
    path: String,
    thumbnail: Thumbnail,
    post: State,
    command: Command,
) -> bool {
    &&& post == State { thumbnail_cache: post.thumbnail_cache, ..pre }
    &&& post.thumbnail_cache@ == pre.thumbnail_cache@.insert(path@, thumbnail.spec_pixels())
    &&& asks_next_thumbnail(post, command)
}

/// The position of the first occurrence of `path` in `paths`, if any.
pub fn position_of(paths: &Vec<String>, path: &String) -> (r: Option<usize>)
    ensures
        match r {
            Some(i) => is_first_position(paths@, path@, i as int),
            None => is_absent(paths@, path@),
        },
{
    let mut i: usize = 0;
    while i < paths.len()
        invariant
            i <= paths@.len(),
            forall|j: int| 0 <= j < i ==> (#[trigger] paths@[j])@ != path@,
        decreases paths@.len() - i,
    {
        if paths[i] == *path {
            return Some(i);
        }
        i += 1;
    }
    None
}

impl State {
    /// The command that asks for the first thumbnail of the collection that
    /// the cache lacks.
    pub fn next_thumbnail(&self) -> (command: Command)
        ensures
            asks_next_thumbnail(*self, command),
    {
        match self.thumbnail_cache.first_missing(&self.image_collection) {
            Some(i) => Command::LoadThumbnail(self.image_collection[i].clone()),
            None => Command::Nothing,
        }
    }

    fn on_change_directory(&mut self, path: String, is_dir: bool) -> (command: Command)
        ensures
            change_directory(*old(self), path, is_dir, *final(self), command),
    {
        if is_dir {
            self.current_path = path;
        }
        Command::Nothing
    }

    fn on_select_image(&mut self, picked: Option<String>, home: String) -> (command: Command)
        ensures
            select_image(*old(self), picked, home, *final(self), command),
    {
        let asked = match &picked {
            Some(path) => path.clone(),
            None => String::new(),
        };
        self.current_image = picked;
        self.current_path = home;
        self.image_collection.clear();
        self.current_image_index = 0;
        Command::LoadImage(asked)
    }

    fn on_pick_image(&mut self, path: String) -> (command: Command)
        ensures
            pick_image(*old(self), path, *final(self), command),
    {
        self.current_path = match parent(path.as_str()) {
            Some(directory) => directory,
            None => path.clone(),
        };
        self.current_image_index = match position_of(&self.image_collection, &path) {
            Some(i) => i,
            None => 0,
        };
        let asked = path.clone();
        self.current_image = Some(path);
        Command::LoadImage(asked)
    }

    fn step_to(&mut self, index: usize) -> (command: Command)
        requires
            old(self).image_collection@.len() > 0 ==> index < old(self).image_collection@.len(),
        ensures
            stepped_to(*old(self), index as int, *final(self), command),
    {
        if self.image_collection.len() > 0 {
            self.current_image_index = index;
            self.current_image = Some(self.image_collection[index].clone());
        }
        let asked = match &self.current_image {
            Some(path) => path.clone(),
            None => String::new(),
        };
        Command::LoadImage(asked)
    }

    fn on_pick_next_image(&mut self) -> (command: Command)
        ensures
            pick_next_image(*old(self), *final(self), command),
    {
        let len: usize = self.image_collection.len();
        if len > 0 {
            let index: usize = next_index(self.current_image_index, len);
            self.step_to(index)
        } else {
            self.step_to(0)
        }
    }

    fn on_pick_previous_image(&mut self) -> (command: Command)
        ensures
            pick_previous_image(*old(self), *final(self), command),
    {
        let len: usize = self.image_collection.len();
        if len > 0 {
            let index: usize = previous_index(self.current_image_index, len);
            self.step_to(index)
        } else {
            self.step_to(0)
        }
    }

    fn on_open_resampling_bar(&mut self) -> (command: Command)
        ensures
            open_resampling_bar(*old(self), *final(self), command),
    {
        self.resampling_bar_opened = !self.resampling_bar_opened;
        Command::Nothing
    }

    fn on_toggle_fullscreen(&mut self) -> (command: Command)
        ensures
            toggle_fullscreen(*old(self), *final(self), command),
    {
        self.is_fullscreen = !self.is_fullscreen;
        Command::Nothing
    }

    fn on_esc_pressed(&mut self) -> (command: Command)
        ensures
            esc_pressed(*old(self), *final(self), command),
    {
        self.is_fullscreen = false;
        Command::Nothing
    }

    fn on_load_image(
        &mut self,
        path: String,
        file_size: u64,
        viewed_at: i64,
        decoded: Option<SourceRaster>,
    ) -> (command: Command)
        ensures
            load_image(*old(self), path, file_size, viewed_at, decoded, *final(self), command),
    {
        match decoded {
            Some(raster) => {
                self.recent_manager.add_item(path.clone(), file_size, viewed_at);
                let _ = self.interaction.handle(InputEvent::ImageLoaded);
                self.zoom = ZoomFactor::neutral();
                self.is_resampling_mode = false;
                self.preview_scaled_bytes = Vec::new();
                self.final_scaled_bytes = Vec::new();
                self.pan_offset = PanOffset::zero();
                self.is_panning = false;
                self.pan_start_position = None;
                self.original = Some(raster);
                Command::ImageLoaded(path)
            },
            None => Command::Nothing,
        }
    }

    fn on_load_thumbnail(&mut self, path: String) -> (command: Command)
        ensures
            load_thumbnail(*old(self), path, *final(self), command),
    {
        Command::LoadThumbnail(path)
    }

    fn on_thumbnail_loaded(&mut self, path: String, thumbnail: Thumbnail) -> (command: Command)
        ensures
            thumbnail_loaded(*old(self), path, thumbnail, *final(self), command),
    {
        self.thumbnail_cache.insert(path, thumbnail);
        self.next_thumbnail()
    }
}

/// Whether a file with this extension belongs to a directory's image
/// collection, whatever the case of its letters.
pub open spec fn spec_collection_extension(ext: Seq<char>) -> bool {
    let lowered = ascii_lowered(ext);
    ||| lowered == "png"@
    ||| lowered == "jpg"@
    ||| lowered == "jpeg"@
    ||| lowered == "gif"@
    ||| lowered == "svg"@
}

/// Whether a listed entry belongs to the image collection: a file with one
/// of the collection's extensions.
pub open spec fn spec_collection_image(path: Seq<char>, is_dir: bool) -> bool {
    !is_dir && (match spec_extension(path) {
        Some(ext) => spec_collection_extension(ext),
        None => false,
    })
}

/// The paths of the images among the entries of a listing, in its order.
pub open spec fn spec_images_of(listing: Seq<DirEntry>) -> Seq<Seq<char>>
    decreases listing.len(),
{
    if listing.len() == 0 {
        Seq::empty()
    } else {
        let rest = spec_images_of(listing.drop_last());
        let last = listing.last();
        if spec_collection_image(last.path@, last.is_dir) {
            rest.push(last.path@)
        } else {
            rest
        }
    }
}

/// The texts of a list of paths.
pub open spec fn texts(paths: Seq<String>) -> Seq<Seq<char>> {
    Seq::new(paths.len(), |i: int| paths[i]@)
}

/// The paths of a list of recent images.
pub open spec fn recent_paths(items: Seq<RecentItemView>) -> Seq<Seq<char>> {
    Seq::new(items.len(), |i: int| items[i].path)
}

/// A node of the tree was clicked, with the listing of its directory at
/// hand.
///
/// The first node with the path, of the first root that holds one, is
/// toggled, and takes its children from the listing where it is expanded
/// and not loaded.  The image collection becomes the images of the listing,
/// or the recent images for the directory of recent images, and the first
/// thumbnail that the cache lacks is asked for; where the directory could
/// not be listed the collection stays as it is.
pub open spec fn expand_directory(
    pre: State,
    path: String,
    listing: Option<Vec<DirEntry>>,
    post: State,
    command: Command,
) -> bool {
    let is_recents = path@ == recents_path();
    let listed = match listing {
        Some(entries) => spec_listed_children(entries@),
        None => Seq::empty(),
    };
    let roots = views(pre.root_file_tree_entry@);
    &&& post == State {
        root_file_tree_entry: post.root_file_tree_entry,
        image_collection: post.image_collection,
        ..pre
    }
    &&& views(post.root_file_tree_entry@) == (match forest_find(roots, path@) {
        Some(found) => forest_replace_first(roots, path@, node_clicked(found, is_recents, listed)),
        None => roots,
    })
    &&& if is_recents {
        &&& texts(post.image_collection@) == recent_paths(pre.recent_manager@.items)
        &&& asks_next_thumbnail(post, command)
    } else {
        match listing {
            Some(entries) => {
                &&& texts(post.image_collection@) == spec_images_of(entries@)
                &&& asks_next_thumbnail(post, command)
            },
            None => post.image_collection == pre.image_collection && command == Command::Nothing,
        }
    }
}

/// Whether a file with this extension belongs to a directory's image
/// collection.
pub fn is_collection_extension(ext: &str) -> (b: bool)
    ensures
        b == spec_collection_extension(ext@),
{
    proof {
        reveal_strlit("png");
        reveal_strlit("jpg");
        reveal_strlit("jpeg");
        reveal_strlit("gif");
        reveal_strlit("svg");
        assert(ascii_lowered("png"@) =~= "png"@);
        assert(ascii_lowered("jpg"@) =~= "jpg"@);
        assert(ascii_lowered("jpeg"@) =~= "jpeg"@);
        assert(ascii_lowered("gif"@) =~= "gif"@);
        assert(ascii_lowered("svg"@) =~= "svg"@);
    }
    let text = chars_of(ext);
    is_word(&text, "png") || is_word(&text, "jpg") || is_word(&text, "jpeg") || is_word(
        &text,
        "gif",
    ) || is_word(&text, "svg")
}

/// The paths of the images among the entries of a listing.
pub fn images_of(listing: &Vec<DirEntry>) -> (images: Vec<String>)
    ensures
        texts(images@) == spec_images_of(listing@),
{
    let mut images: Vec<String> = Vec::new();
    let mut i: usize = 0;
    while i < listing.len()
        invariant
            i <= listing@.len(),
            texts(images@) == spec_images_of(listing@.subrange(0, i as int)),
        decreases listing@.len() - i,
    {
        let entry = &listing[i];
        proof {
            let upto = listing@.subrange(0, i + 1);
            assert(upto.drop_last() =~= listing@.subrange(0, i as int));
            assert(upto.last() == listing@[i as int]);
        }
        let is_image = !entry.is_dir && match extension(entry.path.as_str()) {
            Some(ext) => is_collection_extension(ext.as_str()),
            None => false,
        };
        if is_image {
            let ghost before = images@;
            images.push(entry.path.clone());
            proof {
                assert(texts(images@) =~= texts(before).push(entry.path@));
            }
        }
        i += 1;
    }
    proof {
        assert(listing@.subrange(0, listing@.len() as int) =~= listing@);
    }
    images
}

/// The paths of the recent images, oldest first.
pub fn paths_of(recents: &RecentManager) -> (paths: Vec<String>)
    ensures
        texts(paths@) == recent_paths(recents@.items),
{
    let items = recents.get_recent_items();
    let mut paths: Vec<String> = Vec::new();
    let mut i: usize = 0;
    while i < items.len()
        invariant
            i <= items@.len(),
            crate::smart_directory::item_views(items@) == recents@.items,
            paths@.len() == i,
            forall|j: int| 0 <= j < i ==> (#[trigger] paths@[j])@ == items@[j]@.path,
        decreases items@.len() - i,
    {
        paths.push(items[i].path().clone());
        i += 1;
    }
    proof {
        assert(texts(paths@) =~= recent_paths(recents@.items)) by {
            assert forall|j: int| 0 <= j < paths@.len() implies texts(paths@)[j] == recent_paths(
                recents@.items,
            )[j] by {
                assert(crate::smart_directory::item_views(items@)[j] == items@[j]@);
            }
        }
    }
    paths
}

impl State {
    fn on_expand_directory(&mut self, path: String, listing: Option<Vec<DirEntry>>) -> (command:
        Command)
        ensures
            expand_directory(*old(self), path, listing, *final(self), command),
    {
        let is_recents = same_text(path.as_str(), "__RECENTS__");
        let listed = match &listing {
            Some(entries) => listed_children(entries),
            None => Vec::new(),
        };
        match find_entry_among(&mut self.root_file_tree_entry, &path) {
            Some(node) => {
                let _ = node.click(is_recents, listed);
            },
            None => {},
        }
        if is_recents {
            self.image_collection = paths_of(&self.recent_manager);
            self.next_thumbnail()
        } else {
            match &listing {
                Some(entries) => {
                    self.image_collection = images_of(entries);
                    self.next_thumbnail()
                },
                None => Command::Nothing,
            }
        }
    }
}

/// One thumbnail of the strip that shows the image collection.
#[derive(Debug)]
pub struct StripItem {
    pub path: String,
    /// The thumbnail is that of the current image.
    pub selected: bool,
    /// A thumbnail is cached for the path; a blank stands in where none is.
    pub cached: bool,
}

/// The thumbnails of the strip: one for each path of the image collection,
/// in its order; the one at the current index is selected.
pub fn strip_items(state: &State) -> (items: Vec<StripItem>)
    ensures
        items@.len() == state.image_collection@.len(),
        forall|i: int|
            0 <= i < items@.len() ==> {
                &&& (#[trigger] items@[i]).path@ == state.image_collection@[i]@
                &&& items@[i].selected == (i == state.current_image_index)
                &&& items@[i].cached == state.thumbnail_cache@.dom().contains(
                    state.image_collection@[i]@,
                )
            },
{
    let mut items: Vec<StripItem> = Vec::new();
    let mut i: usize = 0;
    while i < state.image_collection.len()
        invariant
            i <= state.image_collection@.len(),
            items@.len() == i,
            forall|j: int|
                0 <= j < i ==> {
                    &&& (#[trigger] items@[j]).path@ == state.image_collection@[j]@
                    &&& items@[j].selected == (j == state.current_image_index)
                    &&& items@[j].cached == state.thumbnail_cache@.dom().contains(
                        state.image_collection@[j]@,
                    )
                },
        decreases state.image_collection@.len() - i,
    {
        let path = &state.image_collection[i];
        items.push(
            StripItem {
                path: path.clone(),
                selected: i == state.current_image_index,
                cached: state.thumbnail_cache.contains_key(path.as_str()),
            },
        );
        i += 1;
    }
    items
}

/// What taking `message` into the session `pre` gives: the session `post`
/// and the `command` for the surrounding program, message by message.
pub open spec fn updated(pre: State, message: Message, post: State, command: Command) -> bool {
    match message {
        Message::ChangeDirectory { path, is_dir } => change_directory(
            pre,
            path,
            is_dir,
            post,
            command,
        ),
        Message::SelectImage { picked, home } => select_image(pre, picked, home, post, command),
        Message::NoOp => post == pre && command == Command::Nothing,
        Message::ExpandDirectory { path, listing } => expand_directory(
            pre,
            path,
            listing,
            post,
            command,
        ),
        Message::PickImage(path) => pick_image(pre, path, post, command),
        Message::SelectFolder(_) => post == pre && command == Command::Nothing,
        Message::PickNextImage => pick_next_image(pre, post, command),
        Message::PickPreviousImage => pick_previous_image(pre, post, command),
        Message::OpenResamplingBar => open_resampling_bar(pre, post, command),
        Message::SliderChanged { value, now } => slider_changed(pre, value, now, post, command),
        Message::SliderReleased { now } => slider_released(pre, now, post, command),
        Message::ResamplingTypeChanged(selected) => resampling_type_changed(
            pre,
            selected,
            post,
            command,
        ),
        Message::ImageResized(buffer) => image_resized(pre, buffer, post, command),
        Message::LoadImage { path, file_size, viewed_at, decoded } => load_image(
            pre,
            path,
            file_size,
            viewed_at,
            decoded,
            post,
            command,
        ),
        Message::LoadThumbnail(path) => load_thumbnail(pre, path, post, command),
        Message::ThumbnailLoaded(path, thumbnail) => thumbnail_loaded(
            pre,
            path,
            thumbnail,
            post,
            command,
        ),
        Message::LoadScaledBytes => load_scaled_bytes(pre, post, command),
        Message::FinalizeDragging { now } => finalize_dragging(pre, now, post, command),
        Message::ToggleHandTool => toggle_hand_tool(pre, post, command),
        Message::MousePressed(button) => mouse_pressed(pre, button, post, command),
        Message::MouseReleased { button, now } => mouse_released(pre, button, now, post, command),
        Message::MouseMoved { position, now } => mouse_moved(pre, position, now, post, command),
        Message::ToggleFullscreen => toggle_fullscreen(pre, post, command),
        Message::EscPressed => esc_pressed(pre, post, command),
        Message::UploadToCloud(_) => post == pre && command == Command::Nothing,
    }
}

/// The rendered buffer of the tier that goes with the interaction: the
/// preview while content is dragged or held, the final buffer otherwise.
pub open spec fn tier_buffer(state: State) -> Vec<u8> {
    if state.interaction.phase.spec_is_dragging() || state.is_panning {
        state.preview_scaled_bytes
    } else {
        state.final_scaled_bytes
    }
}

/// Whether the display shows a rendered buffer: the session is zooming or
/// panning, and the buffer of the interaction's tier holds a render.
pub open spec fn shows_render(state: State) -> bool {
    (state.is_resampling_mode || state.hand_tool_active) && tier_buffer(state)@.len() > 0
}

/// The node of the tree for a recent image.
pub open spec fn recent_node(item: RecentItemView) -> TreeView {
    TreeView::File { name: crate::smart_directory::spec_display_name(item.path), path: item.path }
}

/// The nodes of the tree for the recent images, oldest first.
pub open spec fn recent_nodes(items: Seq<RecentItemView>) -> Seq<TreeView> {
    Seq::new(items.len(), |i: int| recent_node(items[i]))
}

/// The two roots of a new session's tree: the directory of recent images
/// with a file node for each of them, and the home directory with the
/// children of its listing, both collapsed.
pub open spec fn initial_roots(
    home_dir: Seq<char>,
    recents: Seq<RecentItemView>,
    home_listing: Option<Vec<DirEntry>>,
) -> Seq<TreeView> {
    seq![
        TreeView::Directory {
            name: "Recents"@,
            path: recents_path(),
            children: recent_nodes(recents),
            expanded: false,
            children_loaded: false,
        },
        TreeView::Directory {
            name: crate::path::spec_file_name(home_dir),
            path: home_dir,
            children: match home_listing {
                Some(entries) => spec_listed_children(entries@),
                None => Seq::empty(),
            },
            expanded: false,
            children_loaded: false,
        },
    ]
}

impl State {
    /// Takes `message` into the session and returns what the surrounding
    /// program is to do next.
    pub fn update(&mut self, message: Message) -> (command: Command)
        ensures
            updated(*old(self), message, *final(self), command),
    {
        match message {
            Message::ChangeDirectory { path, is_dir } => self.on_change_directory(path, is_dir),
            Message::SelectImage { picked, home } => self.on_select_image(picked, home),
            Message::NoOp => Command::Nothing,
            Message::ExpandDirectory { path, listing } => self.on_expand_directory(path, listing),
            Message::PickImage(path) => self.on_pick_image(path),
            Message::SelectFolder(_) => Command::Nothing,
            Message::PickNextImage => self.on_pick_next_image(),
            Message::PickPreviousImage => self.on_pick_previous_image(),
            Message::OpenResamplingBar => self.on_open_resampling_bar(),
            Message::SliderChanged { value, now } => self.on_slider_changed(value, now),
            Message::SliderReleased { now } => self.on_slider_released(now),
            Message::ResamplingTypeChanged(selected) => self.on_resampling_type_changed(selected),
            Message::ImageResized(buffer) => self.on_image_resized(buffer),
            Message::LoadImage { path, file_size, viewed_at, decoded } => self.on_load_image(
                path,
                file_size,
                viewed_at,
                decoded,
            ),
            Message::LoadThumbnail(path) => self.on_load_thumbnail(path),
            Message::ThumbnailLoaded(path, thumbnail) => self.on_thumbnail_loaded(path, thumbnail),
            Message::LoadScaledBytes => self.on_load_scaled_bytes(),
            Message::FinalizeDragging { now } => self.on_finalize_dragging(now),
            Message::ToggleHandTool => self.on_toggle_hand_tool(),
            Message::MousePressed(button) => self.on_mouse_pressed(button),
            Message::MouseReleased { button, now } => self.on_mouse_released(button, now),
            Message::MouseMoved { position, now } => self.on_mouse_moved(position, now),
            Message::ToggleFullscreen => self.on_toggle_fullscreen(),
            Message::EscPressed => self.on_esc_pressed(),
            Message::UploadToCloud(_) => Command::Nothing,
        }
    }

    /// What the display shows: the rendered buffer of the interaction's
    /// tier while the session is zooming or panning and that buffer holds a
    /// render, and the selected file itself otherwise.
    pub fn displayed(&self) -> (shown: Display<'_>)
        ensures
            match shown {
                Display::Rendered(bytes) => shows_render(*self) && *bytes == tier_buffer(*self),
                Display::File(path) => !shows_render(*self) && (match path {
                    Some(p) => self.current_image == Some(*p),
                    None => self.current_image is None,
                }),
            },
    {
        let buffer = if self.interaction.phase.is_dragging() || self.is_panning {
            &self.preview_scaled_bytes
        } else {
            &self.final_scaled_bytes
        };
        if (self.is_resampling_mode || self.hand_tool_active) && buffer.len() > 0 {
            Display::Rendered(buffer)
        } else {
            match &self.current_image {
                Some(path) => Display::File(Some(path)),
                None => Display::File(None),
            }
        }
    }

    /// The session at its start, at the time `now`: in the home directory,
    /// with no image, an empty collection and cache, the neutral zoom, the
    /// Lanczos filter, and the tree of `initial_roots`.
    pub fn new(
        home_dir: String,
        recents: RecentManager,
        home_listing: Option<Vec<DirEntry>>,
        now: u64,
    ) -> (state: State)
        ensures
            state.current_path@ == home_dir@,
            state.current_image is None,
            views(state.root_file_tree_entry@) == initial_roots(
                home_dir@,
                recents@.items,
                home_listing,
            ),
            state.image_collection@.len() == 0,
            state.current_image_index == 0,
            !state.resampling_bar_opened,
            state.zoom.spec_steps() == ZOOM_UNIT,
            state.resampling_type == ResamplingType::Lanczos3,
            state.original is None,
            state.thumbnail_cache@ == Map::<Seq<char>, Seq<u8>>::empty(),
            state.interaction == (InteractionState { phase: Phase::Idle, last_trigger: now }),
            state.preview_scaled_bytes@.len() == 0,
            state.final_scaled_bytes@.len() == 0,
            !state.is_resampling_mode,
            !state.hand_tool_active,
            !state.is_panning,
            state.pan_start_position is None,
            state.pan_offset == (PanOffset { x: 0, y: 0 }),
            state.recent_manager == recents,
            !state.is_fullscreen,
    {
        let items = recents.get_recent_items();
        let mut recent_children: Vec<FileTreeEntry> = Vec::new();
        let mut i: usize = 0;
        while i < items.len()
            invariant
                i <= items@.len(),
                crate::smart_directory::item_views(items@) == recents@.items,
                recent_children@.len() == i,
                forall|j: int|
                    0 <= j < i ==> (#[trigger] recent_children@[j])@ == recent_node(items@[j]@),
            decreases items@.len() - i,
        {
            recent_children.push(
                FileTreeEntry::File { name: items[i].name(), path: items[i].path().clone() },
            );
            i += 1;
        }
        proof {
            crate::file_tree::lemma_views(recent_children@);
            assert(views(recent_children@) =~= recent_nodes(recents@.items)) by {
                assert forall|j: int| 0 <= j < recent_children@.len() implies views(
                    recent_children@,
                )[j] == recent_nodes(recents@.items)[j] by {
                    assert(crate::smart_directory::item_views(items@)[j] == items@[j]@);
                }
            }
        }
        let home_children = match &home_listing {
            Some(entries) => listed_children(entries),
            None => Vec::new(),
        };
        let recents_root = FileTreeEntry::Directory {
            name: "Recents".to_owned(),
            path: "__RECENTS__".to_owned(),
            children: recent_children,
            expanded: false,
            children_loaded: false,
        };
        let home_root = FileTreeEntry::Directory {
            name: crate::path::file_name(home_dir.as_str()),
            path: home_dir.clone(),
            children: home_children,
            expanded: false,
            children_loaded: false,
        };
        let mut roots: Vec<FileTreeEntry> = Vec::new();
        roots.push(recents_root);
        roots.push(home_root);
        proof {
            crate::file_tree::lemma_views(roots@);
            assert(views(roots@) =~= initial_roots(home_dir@, recents@.items, home_listing));
        }
        State {
            current_path: home_dir,
            current_image: None,
            root_file_tree_entry: roots,
            image_collection: Vec::new(),
            current_image_index: 0,
            resampling_bar_opened: false,
            zoom: ZoomFactor::neutral(),
            resampling_type: ResamplingType::Lanczos3,
            original: None,
            thumbnail_cache: ThumbnailCache::new(),
            interaction: InteractionState::new(now),
            preview_scaled_bytes: Vec::new(),
            final_scaled_bytes: Vec::new(),
            is_resampling_mode: false,
            hand_tool_active: false,
            is_panning: false,
            pan_start_position: None,
            pan_offset: PanOffset::zero(),
            recent_manager: recents,
            is_fullscreen: false,
        }
    }
}

} // verus!
