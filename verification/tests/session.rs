use image_browser::file_tree::{DirEntry, FileTreeEntry};
use image_browser::raster::SourceRaster;
use image_browser::render::{RenderTier, RenderedBuffer};
use image_browser::resampling::ResamplingType;
use image_browser::session::{
    images_of, is_collection_extension, next_index, position_of, previous_index, strip_items,
    Command, Display, Message, MouseButton, Position, State,
};
use image_browser::smart_directory::{RecentItem, RecentManager};
use image_browser::throttle::Phase;
use image_browser::thumbnail::Thumbnail;
use image_browser::viewport::PanOffset;

fn entry(path: &str, is_dir: bool) -> DirEntry {
    DirEntry { path: path.to_string(), is_dir }
}

fn fresh() -> State {
    let recents = RecentManager::from_parts(
        vec![
            RecentItem::new("/old/one.png".to_string(), 1, 1),
            RecentItem::new("/old/two.png".to_string(), 2, 2),
        ],
        20,
    );
    let listing = vec![
        entry("/home/me/pics", true),
        entry("/home/me/.cache", true),
        entry("/home/me/cat.png", false),
    ];
    State::new("/home/me".to_string(), recents, Some(listing), 0)
}

fn image() -> SourceRaster {
    SourceRaster::new(4, 2, vec![7; 24]).unwrap()
}

fn loaded() -> State {
    let mut state = fresh();
    let command = state.update(Message::LoadImage {
        path: "/home/me/cat.png".to_string(),
        file_size: 24,
        viewed_at: 1_700_000_000_000,
        decoded: Some(image()),
    });
    assert!(matches!(command, Command::ImageLoaded(ref p) if p == "/home/me/cat.png"));
    state
}

fn render_tier(command: &Command) -> Option<RenderTier> {
    match command {
        Command::Render(request) => Some(request.tier),
        _ => None,
    }
}

#[test]
fn new_session_starts_at_home() {
    let state = fresh();
    assert_eq!(state.current_path, "/home/me");
    assert!(state.current_image.is_none());
    assert!(state.image_collection.is_empty());
    assert_eq!(state.zoom.steps(), 50);
    assert_eq!(state.resampling_type, ResamplingType::Lanczos3);
    assert!(state.original.is_none());
    assert_eq!(state.interaction.phase, Phase::Idle);
    assert_eq!(state.pan_offset, PanOffset { x: 0, y: 0 });
    assert_eq!(state.root_file_tree_entry.len(), 2);
    match &state.root_file_tree_entry[0] {
        FileTreeEntry::Directory { name, path, children, expanded, .. } => {
            assert_eq!(name, "Recents");
            assert_eq!(path, "__RECENTS__");
            assert!(!expanded);
            let names: Vec<&str> = children.iter().map(|c| c.name()).collect();
            assert_eq!(names, vec!["one.png", "two.png"]);
        }
        FileTreeEntry::File { .. } => panic!("the first root is a directory"),
    }
    match &state.root_file_tree_entry[1] {
        FileTreeEntry::Directory { name, path, children, .. } => {
            assert_eq!(name, "me");
            assert_eq!(path, "/home/me");
            let paths: Vec<&str> = children.iter().map(|c| c.path().as_str()).collect();
            assert_eq!(paths, vec!["/home/me/pics", "/home/me/cat.png"]);
        }
        FileTreeEntry::File { .. } => panic!("the second root is a directory"),
    }
    assert!(matches!(state.displayed(), Display::File(None)));
}

#[test]
fn loading_an_image_resets_the_view() {
    let mut state = loaded();
    state.update(Message::SliderChanged { value: 120, now: 1_000 });
    state.update(Message::ToggleHandTool);
    state.update(Message::MousePressed(MouseButton::Left));
    state.update(Message::MouseMoved { position: Position { x: 5, y: 5 }, now: 1_100 });
    state.update(Message::MouseMoved { position: Position { x: 25, y: 0 }, now: 1_200 });
    state.update(Message::ImageResized(RenderedBuffer { bytes: vec![1], tier: RenderTier::Preview }));
    state.update(Message::ImageResized(RenderedBuffer { bytes: vec![2], tier: RenderTier::Final }));
    assert_eq!(state.zoom.steps(), 120);
    assert_eq!(state.pan_offset, PanOffset { x: 20, y: -5 });
    let command = state.update(Message::LoadImage {
        path: "/home/me/dog.png".to_string(),
        file_size: 9,
        viewed_at: 1_700_000_000_500,
        decoded: Some(image()),
    });
    assert!(matches!(command, Command::ImageLoaded(ref p) if p == "/home/me/dog.png"));
    assert_eq!(state.zoom.steps(), 50);
    assert_eq!(state.pan_offset, PanOffset { x: 0, y: 0 });
    assert_eq!(state.interaction.phase, Phase::Idle);
    assert!(state.preview_scaled_bytes.is_empty());
    assert!(state.final_scaled_bytes.is_empty());
    assert!(!state.is_resampling_mode);
    assert!(!state.is_panning);
    assert!(state.pan_start_position.is_none());
    assert!(state.hand_tool_active);
    let recent: Vec<&str> =
        state.recent_manager.get_recent_items().iter().map(|i| i.path().as_str()).collect();
    assert_eq!(recent, vec!["/old/one.png", "/old/two.png", "/home/me/cat.png", "/home/me/dog.png"]);
    let dog = &state.recent_manager.get_recent_items()[3];
    assert_eq!((dog.last_viewed(), dog.file_size(), dog.view_count()), (1_700_000_000_500, 9, 1));
}

#[test]
fn failed_load_leaves_the_session_as_it_was() {
    let mut state = loaded();
    state.update(Message::SliderChanged { value: 120, now: 1_000 });
    let before = format!("{:?}", state);
    let command = state.update(Message::LoadImage {
        path: "/home/me/broken.png".to_string(),
        file_size: 9,
        viewed_at: 1_700_000_000_500,
        decoded: None,
    });
    assert!(matches!(command, Command::Nothing));
    assert_eq!(format!("{:?}", state), before);
}

#[test]
fn slider_drag_is_throttled() {
    let mut state = loaded();
    let mut previews = 0;
    for i in 0..10u64 {
        let command = state.update(Message::SliderChanged { value: 60 + i as u8, now: 10_000 + i * 100 });
        match render_tier(&command) {
            Some(RenderTier::Preview) => previews += 1,
            Some(RenderTier::Final) => panic!("no final render during a drag"),
            None => assert!(matches!(command, Command::Nothing)),
        }
    }
    assert_eq!(previews, 4);
    assert_eq!(state.zoom.steps(), 69);
    assert!(state.is_resampling_mode);
    assert_eq!(state.interaction.phase, Phase::DraggingSlider);
    let command = state.update(Message::SliderReleased { now: 11_000 });
    assert!(matches!(command, Command::ScheduleFinalize { delay_ms: 300 }));
    let command = state.update(Message::FinalizeDragging { now: 11_300 });
    match command {
        Command::Render(request) => {
            assert_eq!(request.tier, RenderTier::Final);
            assert_eq!(request.zoom.steps(), 69);
            assert_eq!(request.algorithm, ResamplingType::Lanczos3);
            assert_eq!(request.pan, PanOffset { x: 0, y: 0 });
        }
        other => panic!("a final render was due, not {:?}", other),
    }
    assert!(matches!(state.update(Message::FinalizeDragging { now: 11_400 }), Command::Nothing));
}

#[test]
fn slider_value_is_held_within_its_domain() {
    let mut state = loaded();
    state.update(Message::SliderChanged { value: 3, now: 5_000 });
    assert_eq!(state.zoom.steps(), 25);
    state.update(Message::SliderChanged { value: 250, now: 5_001 });
    assert_eq!(state.zoom.steps(), 150);
}

#[test]
fn without_an_image_nothing_is_rendered() {
    let mut state = fresh();
    assert!(matches!(state.update(Message::SliderChanged { value: 80, now: 5_000 }), Command::Nothing));
    assert!(matches!(
        state.update(Message::SliderReleased { now: 5_100 }),
        Command::ScheduleFinalize { delay_ms: 300 }
    ));
    assert!(matches!(state.update(Message::FinalizeDragging { now: 5_400 }), Command::Nothing));
    assert!(matches!(
        state.update(Message::ResamplingTypeChanged(ResamplingType::Point)),
        Command::Nothing
    ));
    assert_eq!(state.resampling_type, ResamplingType::Point);
}

#[test]
fn stale_preview_is_dropped() {
    let mut state = loaded();
    state.update(Message::SliderChanged { value: 80, now: 5_000 });
    state.update(Message::ImageResized(RenderedBuffer { bytes: vec![1, 1], tier: RenderTier::Preview }));
    assert_eq!(state.preview_scaled_bytes, vec![1, 1]);
    state.update(Message::SliderReleased { now: 5_100 });
    let before = format!("{:?}", state);
    // a preview that lands after the drag has ended
    state.update(Message::ImageResized(RenderedBuffer { bytes: vec![2, 2], tier: RenderTier::Preview }));
    assert_eq!(format!("{:?}", state), before);
    state.update(Message::FinalizeDragging { now: 5_400 });
    state.update(Message::ImageResized(RenderedBuffer { bytes: vec![3, 3], tier: RenderTier::Final }));
    state.update(Message::ImageResized(RenderedBuffer { bytes: vec![4, 4], tier: RenderTier::Preview }));
    assert_eq!(state.final_scaled_bytes, vec![3, 3]);
    assert_eq!(state.preview_scaled_bytes, vec![1, 1]);
    assert!(matches!(state.displayed(), Display::Rendered(bytes) if bytes == &vec![3, 3]));
}

#[test]
fn final_result_does_not_touch_the_preview() {
    let mut state = loaded();
    state.update(Message::SliderChanged { value: 80, now: 5_000 });
    state.update(Message::ImageResized(RenderedBuffer { bytes: vec![1], tier: RenderTier::Preview }));
    state.update(Message::ImageResized(RenderedBuffer { bytes: vec![9], tier: RenderTier::Final }));
    assert_eq!(state.preview_scaled_bytes, vec![1]);
    assert_eq!(state.final_scaled_bytes, vec![9]);
    // still dragging: the preview is what is shown
    assert!(matches!(state.displayed(), Display::Rendered(bytes) if bytes == &vec![1]));
}

#[test]
fn display_shows_the_file_until_a_render_is_there() {
    let mut state = loaded();
    state.update(Message::PickImage("/home/me/cat.png".to_string()));
    assert!(matches!(state.displayed(), Display::File(Some(p)) if p == "/home/me/cat.png"));
    state.update(Message::SliderChanged { value: 80, now: 5_000 });
    assert!(matches!(state.displayed(), Display::File(Some(_))));
    state.update(Message::ImageResized(RenderedBuffer { bytes: vec![1], tier: RenderTier::Preview }));
    assert!(matches!(state.displayed(), Display::Rendered(bytes) if bytes == &vec![1]));
    state.update(Message::SliderReleased { now: 5_100 });
    // quiescing: the final buffer is due, and there is none yet
    assert!(matches!(state.displayed(), Display::File(Some(_))));
}

#[test]
fn filter_change_renders_at_once_when_idle() {
    let mut state = loaded();
    let command = state.update(Message::ResamplingTypeChanged(ResamplingType::Mitchell));
    match command {
        Command::Render(request) => {
            assert_eq!(request.tier, RenderTier::Final);
            assert_eq!(request.algorithm, ResamplingType::Mitchell);
        }
        other => panic!("a final render was due, not {:?}", other),
    }
    state.update(Message::SliderChanged { value: 80, now: 5_000 });
    let command = state.update(Message::ResamplingTypeChanged(ResamplingType::Catrom));
    assert!(matches!(command, Command::Nothing));
    assert_eq!(state.resampling_type, ResamplingType::Catrom);
}

#[test]
fn pointer_drag_pans_and_previews() {
    let mut state = loaded();
    // without the hand tool the pointer does nothing
    state.update(Message::MousePressed(MouseButton::Left));
    assert!(!state.is_panning);
    state.update(Message::ToggleHandTool);
    state.update(Message::MousePressed(MouseButton::Right));
    assert!(!state.is_panning);
    state.update(Message::MousePressed(MouseButton::Left));
    assert!(state.is_panning);
    let command = state.update(Message::MouseMoved { position: Position { x: 100, y: 100 }, now: 9_000 });
    assert!(matches!(command, Command::Nothing));
    assert_eq!(state.pan_start_position, Some(Position { x: 100, y: 100 }));
    assert_eq!(state.interaction.phase, Phase::Idle);
    let command = state.update(Message::MouseMoved { position: Position { x: 130, y: 90 }, now: 9_010 });
    assert_eq!(render_tier(&command), Some(RenderTier::Preview));
    assert_eq!(state.pan_offset, PanOffset { x: 30, y: -10 });
    assert_eq!(state.interaction.phase, Phase::DraggingPointer);
    let command = state.update(Message::MouseMoved { position: Position { x: 131, y: 91 }, now: 9_020 });
    assert!(matches!(command, Command::Nothing));
    assert_eq!(state.pan_offset, PanOffset { x: 31, y: -9 });
    let command = state.update(Message::MouseReleased { button: MouseButton::Left, now: 9_030 });
    assert!(matches!(command, Command::ScheduleFinalize { delay_ms: 300 }));
    assert!(!state.is_panning);
    assert!(state.pan_start_position.is_none());
    let command = state.update(Message::FinalizeDragging { now: 9_330 });
    match command {
        Command::Render(request) => {
            assert_eq!(request.tier, RenderTier::Final);
            assert_eq!(request.pan, PanOffset { x: 31, y: -9 });
        }
        other => panic!("a final render was due, not {:?}", other),
    }
}

#[test]
fn pan_saturates_at_the_ends_of_the_range() {
    let mut state = loaded();
    state.update(Message::ToggleHandTool);
    state.update(Message::MousePressed(MouseButton::Left));
    state.update(Message::MouseMoved { position: Position { x: i32::MIN, y: 0 }, now: 1 });
    state.update(Message::MouseMoved { position: Position { x: i32::MAX, y: 0 }, now: 2 });
    assert_eq!(state.pan_offset, PanOffset { x: i32::MAX, y: 0 });
    state.update(Message::MouseMoved { position: Position { x: i32::MAX, y: 5 }, now: 3 });
    assert_eq!(state.pan_offset, PanOffset { x: i32::MAX, y: 5 });
}

#[test]
fn load_scaled_bytes_renders_anew_only_over_a_final_buffer() {
    let mut state = loaded();
    assert!(matches!(state.update(Message::LoadScaledBytes), Command::Nothing));
    state.update(Message::ImageResized(RenderedBuffer { bytes: vec![1], tier: RenderTier::Final }));
    assert_eq!(render_tier(&state.update(Message::LoadScaledBytes)), Some(RenderTier::Final));
}

#[test]
fn toggles_flip_their_flags() {
    let mut state = fresh();
    state.update(Message::OpenResamplingBar);
    assert!(state.resampling_bar_opened);
    state.update(Message::OpenResamplingBar);
    assert!(!state.resampling_bar_opened);
    state.update(Message::ToggleFullscreen);
    assert!(state.is_fullscreen);
    state.update(Message::EscPressed);
    assert!(!state.is_fullscreen);
    state.update(Message::EscPressed);
    assert!(!state.is_fullscreen);
    state.update(Message::ToggleHandTool);
    assert!(state.hand_tool_active);
}

#[test]
fn messages_without_effect_change_nothing() {
    let mut state = fresh();
    let before = format!("{:?}", state);
    assert!(matches!(state.update(Message::NoOp), Command::Nothing));
    assert!(matches!(state.update(Message::SelectFolder("/x".to_string())), Command::Nothing));
    assert!(matches!(state.update(Message::UploadToCloud("/x".to_string())), Command::Nothing));
    assert!(matches!(
        state.update(Message::ChangeDirectory { path: "/not/a/dir".to_string(), is_dir: false }),
        Command::Nothing
    ));
    assert_eq!(format!("{:?}", state), before);
    state.update(Message::ChangeDirectory { path: "/a/dir".to_string(), is_dir: true });
    assert_eq!(state.current_path, "/a/dir");
}

#[test]
fn expanding_a_directory_lists_it_and_collects_its_images() {
    let mut state = fresh();
    let listing = vec![
        entry("/home/me/pics/b.PNG", false),
        entry("/home/me/pics/sub", true),
        entry("/home/me/pics/a.jpg", false),
        entry("/home/me/pics/notes.txt", false),
        entry("/home/me/pics/c.svg", false),
        entry("/home/me/pics/pic.png", true),
    ];
    let command = state.update(Message::ExpandDirectory {
        path: "/home/me/pics".to_string(),
        listing: Some(listing),
    });
    assert_eq!(
        state.image_collection,
        vec![
            "/home/me/pics/b.PNG".to_string(),
            "/home/me/pics/a.jpg".to_string(),
            "/home/me/pics/c.svg".to_string()
        ]
    );
    assert!(matches!(command, Command::LoadThumbnail(ref p) if p == "/home/me/pics/b.PNG"));
    match &state.root_file_tree_entry[1] {
        FileTreeEntry::Directory { children, .. } => match &children[0] {
            FileTreeEntry::Directory { path, expanded, children, .. } => {
                assert_eq!(path, "/home/me/pics");
                assert!(*expanded);
                let shown: Vec<&str> = children.iter().map(|c| c.path().as_str()).collect();
                // the tree goes by the suffix as written, the collection by the extension
                assert_eq!(
                    shown,
                    vec![
                        "/home/me/pics/sub",
                        "/home/me/pics/a.jpg",
                        "/home/me/pics/c.svg",
                        "/home/me/pics/pic.png"
                    ]
                );
            }
            FileTreeEntry::File { .. } => panic!("pics is a directory"),
        },
        FileTreeEntry::File { .. } => panic!("home is a directory"),
    }
}

#[test]
fn thumbnails_are_asked_for_one_by_one() {
    let mut state = fresh();
    let listing = vec![entry("/p/a.png", false), entry("/p/b.png", false)];
    state.update(Message::ExpandDirectory { path: "/p".to_string(), listing: Some(listing) });
    let command = state.update(Message::LoadThumbnail("/p/a.png".to_string()));
    assert!(matches!(command, Command::LoadThumbnail(ref p) if p == "/p/a.png"));
    let command =
        state.update(Message::ThumbnailLoaded("/p/a.png".to_string(), Thumbnail::flat(1, 2, 3, 4)));
    assert!(matches!(command, Command::LoadThumbnail(ref p) if p == "/p/b.png"));
    let command =
        state.update(Message::ThumbnailLoaded("/p/b.png".to_string(), Thumbnail::flat(1, 2, 3, 4)));
    assert!(matches!(command, Command::Nothing));
    assert!(state.thumbnail_cache.contains_key("/p/a.png"));
    assert!(state.thumbnail_cache.contains_key("/p/b.png"));
}

#[test]
fn expanding_recents_collects_the_recent_images() {
    let mut state = fresh();
    let command =
        state.update(Message::ExpandDirectory { path: "__RECENTS__".to_string(), listing: None });
    assert_eq!(state.image_collection, vec!["/old/one.png".to_string(), "/old/two.png".to_string()]);
    assert!(matches!(command, Command::LoadThumbnail(ref p) if p == "/old/one.png"));
    match &state.root_file_tree_entry[0] {
        FileTreeEntry::Directory { expanded, children_loaded, children, .. } => {
            assert!(*expanded);
            assert!(*children_loaded);
            assert_eq!(children.len(), 2);
        }
        FileTreeEntry::File { .. } => panic!("recents is a directory"),
    }
}

#[test]
fn unlisted_directory_keeps_the_collection() {
    let mut state = fresh();
    state.update(Message::ExpandDirectory {
        path: "/p".to_string(),
        listing: Some(vec![entry("/p/a.png", false)]),
    });
    let command =
        state.update(Message::ExpandDirectory { path: "/home/me/pics".to_string(), listing: None });
    assert!(matches!(command, Command::Nothing));
    assert_eq!(state.image_collection, vec!["/p/a.png".to_string()]);
}

#[test]
fn picking_walks_the_collection_in_a_circle() {
    let mut state = fresh();
    let listing = vec![entry("/p/a.png", false), entry("/p/b.png", false), entry("/p/c.png", false)];
    state.update(Message::ExpandDirectory { path: "/p".to_string(), listing: Some(listing) });
    let command = state.update(Message::PickImage("/p/b.png".to_string()));
    assert!(matches!(command, Command::LoadImage(ref p) if p == "/p/b.png"));
    assert_eq!(state.current_image_index, 1);
    assert_eq!(state.current_path, "/p");
    assert_eq!(state.current_image, Some("/p/b.png".to_string()));
    let command = state.update(Message::PickNextImage);
    assert!(matches!(command, Command::LoadImage(ref p) if p == "/p/c.png"));
    let command = state.update(Message::PickNextImage);
    assert!(matches!(command, Command::LoadImage(ref p) if p == "/p/a.png"));
    assert_eq!(state.current_image_index, 0);
    let command = state.update(Message::PickPreviousImage);
    assert!(matches!(command, Command::LoadImage(ref p) if p == "/p/c.png"));
    assert_eq!(state.current_image_index, 2);
    let command = state.update(Message::PickImage("/elsewhere/z.png".to_string()));
    assert!(matches!(command, Command::LoadImage(ref p) if p == "/elsewhere/z.png"));
    assert_eq!(state.current_image_index, 0);
    assert_eq!(state.current_path, "/elsewhere");
}

#[test]
fn picking_in_an_empty_collection_loads_what_is_current() {
    let mut state = fresh();
    assert!(matches!(state.update(Message::PickNextImage), Command::LoadImage(ref p) if p.is_empty()));
    assert!(matches!(state.update(Message::PickPreviousImage), Command::LoadImage(ref p) if p.is_empty()));
    state.update(Message::PickImage("lonely.png".to_string()));
    assert_eq!(state.current_path, "");
    state.update(Message::PickImage("".to_string()));
    assert_eq!(state.current_path, "");
    state.update(Message::PickImage("lonely.png".to_string()));
    assert!(matches!(state.update(Message::PickNextImage), Command::LoadImage(ref p) if p == "lonely.png"));
}

#[test]
fn selecting_an_image_empties_the_collection() {
    let mut state = fresh();
    state.update(Message::ExpandDirectory {
        path: "/p".to_string(),
        listing: Some(vec![entry("/p/a.png", false)]),
    });
    let command = state.update(Message::SelectImage {
        picked: Some("/q/picked.gif".to_string()),
        home: "/home/me".to_string(),
    });
    assert!(matches!(command, Command::LoadImage(ref p) if p == "/q/picked.gif"));
    assert_eq!(state.current_image, Some("/q/picked.gif".to_string()));
    assert_eq!(state.current_path, "/home/me");
    assert!(state.image_collection.is_empty());
    assert_eq!(state.current_image_index, 0);
    let command = state.update(Message::SelectImage { picked: None, home: "/home/me".to_string() });
    assert!(matches!(command, Command::LoadImage(ref p) if p.is_empty()));
    assert!(state.current_image.is_none());
}

#[test]
fn indices_wrap_around() {
    assert_eq!(next_index(0, 3), 1);
    assert_eq!(next_index(2, 3), 0);
    assert_eq!(next_index(7, 3), 2);
    assert_eq!(next_index(usize::MAX, 1), 0);
    assert_eq!(next_index(usize::MAX, 7), (usize::MAX % 7 + 1) % 7);
    assert_eq!(previous_index(0, 3), 2);
    assert_eq!(previous_index(2, 3), 1);
    assert_eq!(previous_index(3, 3), 2);
    assert_eq!(previous_index(9, 3), 2);
}

#[test]
fn collection_goes_by_the_extension_whatever_its_case() {
    for ext in ["png", "jpg", "jpeg", "gif", "svg", "PNG", "Svg"] {
        assert!(is_collection_extension(ext), "{ext}");
    }
    for ext in ["bmp", "tiff", "webp", "", "txt"] {
        assert!(!is_collection_extension(ext), "{ext}");
    }
    let images = images_of(&vec![entry("/a.png", true), entry("/b.GIF", false), entry("/c", false)]);
    assert_eq!(images, vec!["/b.GIF".to_string()]);
    let paths = vec!["x".to_string(), "y".to_string(), "x".to_string()];
    assert_eq!(position_of(&paths, &"x".to_string()), Some(0));
    assert_eq!(position_of(&paths, &"y".to_string()), Some(1));
    assert_eq!(position_of(&paths, &"z".to_string()), None);
}

#[test]
fn strip_shows_the_collection_with_the_current_image_selected() {
    let mut state = fresh();
    assert!(strip_items(&state).is_empty());
    let listing = vec![entry("/p/a.png", false), entry("/p/b.png", false), entry("/p/c.png", false)];
    state.update(Message::ExpandDirectory { path: "/p".to_string(), listing: Some(listing) });
    state.update(Message::ThumbnailLoaded("/p/a.png".to_string(), Thumbnail::flat(1, 2, 3, 4)));
    state.update(Message::PickImage("/p/b.png".to_string()));
    let shown: Vec<(String, bool, bool)> =
        strip_items(&state).into_iter().map(|i| (i.path, i.selected, i.cached)).collect();
    assert_eq!(
        shown,
        vec![
            ("/p/a.png".to_string(), false, true),
            ("/p/b.png".to_string(), true, false),
            ("/p/c.png".to_string(), false, false),
        ]
    );
}

#[test]
fn a_repeated_load_counts_a_second_view() {
    let mut state = loaded();
    state.update(Message::LoadImage {
        path: "/home/me/cat.png".to_string(),
        file_size: 77,
        viewed_at: 1_700_000_009_000,
        decoded: Some(image()),
    });
    let cat = &state.recent_manager.get_recent_items()[2];
    assert_eq!(cat.path(), "/home/me/cat.png");
    assert_eq!((cat.view_count(), cat.last_viewed(), cat.file_size()), (2, 1_700_000_009_000, 24));
}
