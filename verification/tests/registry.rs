use masonry_wayland::{
    AppDriver, DrawPlan, DriverCtx, MasonryState, MasonryUserEvent, NewWindow, Platform,
    SurfaceSize, Window, WindowId,
};

struct TestPlatform;

impl Platform for TestPlatform {
    type RenderRoot = String;
    type Color = u32;
    type WindowAttributes = &'static str;
    type RootWidget = String;
    type Surface = (u32, u32);
    type Instant = u64;
    type ScaleFactor = u32;
    type Action = String;
    type WidgetId = u64;
    type Resources = Vec<String>;
}

type State = MasonryState<TestPlatform>;

fn new_window(id: u64) -> NewWindow<TestPlatform> {
    NewWindow::new_with_id(WindowId(id), "attrs", format!("root{id}"))
}

fn window_for(new: NewWindow<TestPlatform>) -> Window<TestPlatform> {
    Window::new(new.id, new.root_widget, new.base_color.unwrap_or(0), 1)
}

/// Queues the window, lets the compositor hand out `handle` and opens it.
fn open(state: &mut State, id: u64, handle: u64) {
    state.new_windows(vec![(new_window(id), true)]).unwrap();
    let new = state.take_new_window().unwrap();
    assert_eq!(new.id, WindowId(id));
    assert!(!state.has_window(WindowId(handle)));
    assert!(!state.is_id_in_use(WindowId(id)));
    state.open_window(WindowId(handle), window_for(new));
}

#[test]
fn new_window_has_default_color() {
    let w = new_window(7);
    assert_eq!(w.id, WindowId(7));
    assert_eq!(w.attributes, "attrs");
    assert_eq!(w.root_widget, "root7");
    assert_eq!(w.base_color, None);
    let w = w.with_base_color(0xffffff);
    assert_eq!(w.id, WindowId(7));
    assert_eq!(w.base_color, Some(0xffffff));
}

#[test]
fn window_accessors_change_in_place() {
    let mut w: Window<TestPlatform> = Window::new(WindowId(1), "root".to_string(), 3, 1);
    w.render_root().push_str("-changed");
    *w.base_color() = 9;
    w.set_scale_factor(2);
    assert_eq!(w.window_id, WindowId(1));
    assert_eq!(w.render_root, "root-changed");
    assert_eq!(w.base_color, 9);
    assert_eq!(w.scale_factor, 2);
}

#[test]
fn new_state_is_empty() {
    let mut state = State::new(vec!["res".to_string()]);
    assert!(state.windows.is_empty());
    assert!(state.last_anim.is_none());
    assert!(!state.stop_requested());
    assert_eq!(state.resources, vec!["res".to_string()]);
    assert!(state.take_new_window().is_none());
    assert!(state.take_requested_windows().is_empty());
}

#[test]
fn accepted_windows_queue_in_order() {
    let mut state = State::new(vec![]);
    let result = state.new_windows(vec![
        (new_window(1), true),
        (new_window(2), false),
        (new_window(3), true),
    ]);
    assert_eq!(result, Ok(()));
    assert!(state.is_id_in_use(WindowId(1)));
    assert!(!state.is_id_in_use(WindowId(2)));
    assert!(state.is_id_in_use(WindowId(3)));
    let first = state.take_new_window().unwrap();
    assert_eq!(first.id, WindowId(1));
    state.open_window(WindowId(10), window_for(first));
    let second = state.take_new_window().unwrap();
    assert_eq!(second.id, WindowId(3));
    state.open_window(WindowId(11), window_for(second));
    assert!(state.take_new_window().is_none());
    assert_eq!(state.handle_id(WindowId(1)), WindowId(10));
    assert_eq!(state.handle_id(WindowId(3)), WindowId(11));
}

#[test]
fn created_window_is_found_by_id_and_handle() {
    let mut state = State::new(vec![]);
    open(&mut state, 5, 50);
    assert!(state.has_window(WindowId(50)));
    assert_eq!(state.handle_id(WindowId(5)), WindowId(50));
    assert_eq!(state.window_mut(WindowId(5)).render_root, "root5");
    state.window_mut(WindowId(5)).base_color = 4;
    assert_eq!(state.windows.get(&50).unwrap().base_color, 4);
    assert!(state.window_by_handle(WindowId(50)).is_some());
    assert!(state.window_by_handle(WindowId(5)).is_none());
    assert!(state.mapped_window(WindowId(5)).is_some());
}

#[test]
fn mapped_window_follows_new_handle() {
    let mut state = State::new(vec![]);
    open(&mut state, 5, 50);
    state.close_handle(WindowId(50));
    assert_eq!(state.handle_of(WindowId(5)), None);
    open(&mut state, 5, 51);
    assert!(state.mapped_window(WindowId(5)).is_some());
}

#[test]
fn close_window_forgets_everything() {
    let mut state = State::new(vec![]);
    open(&mut state, 5, 50);
    open(&mut state, 6, 60);
    state.insert_surface(WindowId(50), (10, 10));
    state.close_window(WindowId(5));
    assert!(!state.has_window(WindowId(50)));
    assert!(state.surface(WindowId(50)).is_none());
    assert!(state.has_window(WindowId(60)));
    assert_eq!(state.handle_id(WindowId(6)), WindowId(60));
}

#[test]
fn close_handle_forgets_everything() {
    let mut state = State::new(vec![]);
    open(&mut state, 5, 50);
    state.insert_surface(WindowId(50), (10, 10));
    state.close_handle(WindowId(50));
    assert!(!state.has_window(WindowId(50)));
    assert!(state.surface(WindowId(50)).is_none());
    assert!(state.windows.is_empty());
    // the id can be used again
    open(&mut state, 5, 51);
    assert_eq!(state.handle_id(WindowId(5)), WindowId(51));
}

#[test]
fn draw_plans() {
    let mut state = State::new(vec![]);
    let size = SurfaceSize { width: 800, height: 600 };
    assert_eq!(state.plan_draw(WindowId(50), size, None), DrawPlan::NoWindow);
    open(&mut state, 5, 50);
    assert_eq!(state.plan_draw(WindowId(50), size, None), DrawPlan::CreateSurface);
    state.insert_surface(WindowId(50), (800, 600));
    assert_eq!(state.plan_draw(WindowId(50), size, Some(size)), DrawPlan::ReuseSurface);
    let smaller = SurfaceSize { width: 400, height: 600 };
    assert_eq!(state.plan_draw(WindowId(50), size, Some(smaller)), DrawPlan::ResizeSurface);
    let flat = SurfaceSize { width: 800, height: 0 };
    assert_eq!(state.plan_draw(WindowId(50), flat, Some(size)), DrawPlan::ZeroSize);
    assert!(state.surface(WindowId(50)).is_none());
    assert!(state.has_window(WindowId(50)));
    let thin = SurfaceSize { width: 0, height: 600 };
    assert_eq!(state.plan_draw(WindowId(50), thin, None), DrawPlan::ZeroSize);
}

#[test]
fn draw_parts_need_surface_and_window() {
    let mut state = State::new(vec!["r".to_string()]);
    open(&mut state, 5, 50);
    assert!(state.draw_parts(WindowId(50)).is_none());
    state.insert_surface(WindowId(50), (1, 1));
    {
        let (surface, window, resources) = state.draw_parts(WindowId(50)).unwrap();
        *surface = (2, 2);
        window.render_root.push('!');
        resources.push("drawn".to_string());
    }
    assert_eq!(state.surface(WindowId(50)), Some(&(2, 2)));
    assert_eq!(state.windows.get(&50).unwrap().render_root, "root5!");
    assert_eq!(state.resources.len(), 2);
    {
        let (surface, resources) = state.present_parts(WindowId(5));
        *surface = (3, 3);
        resources.clear();
    }
    assert_eq!(state.surface(WindowId(50)), Some(&(3, 3)));
    assert!(state.resources.is_empty());
}

#[test]
fn animation_frames() {
    let mut state = State::new(vec![]);
    assert_eq!(state.take_last_anim(), None);
    state.record_anim_frame(true, 100);
    assert_eq!(state.last_anim, Some(100));
    assert_eq!(state.take_last_anim(), Some(100));
    assert_eq!(state.last_anim, None);
    state.record_anim_frame(false, 200);
    assert_eq!(state.take_last_anim(), None);
}

struct Recorder {
    actions: Vec<(WindowId, u64, String)>,
}

impl AppDriver<TestPlatform> for Recorder {
    fn on_action(
        &mut self,
        window_id: WindowId,
        ctx: &mut DriverCtx<'_, TestPlatform>,
        widget_id: u64,
        action: String,
    ) {
        ctx.render_root(window_id).unwrap().push('*');
        self.actions.push((window_id, widget_id, action));
    }
}

#[test]
fn driver_context_operations() {
    let mut state = State::new(vec![]);
    open(&mut state, 5, 50);
    let mut driver = Recorder { actions: vec![] };
    driver.on_start(&mut state);
    {
        let mut ctx = DriverCtx::new(&mut state);
        driver.on_action(WindowId(5), &mut ctx, 3, "click".to_string());
        assert_eq!(ctx.window(WindowId(5)).unwrap().window_id, WindowId(5));
        assert_eq!(ctx.render_root(WindowId(5)).unwrap(), "root5*");
        assert_eq!(ctx.create_window(new_window(7)), Ok(()));
        assert_eq!(ctx.create_window(new_window(8)), Ok(()));
        ctx.close_window(WindowId(5));
    }
    assert_eq!(driver.actions, vec![(WindowId(5), 3, "click".to_string())]);
    assert!(!state.has_window(WindowId(50)));
    assert_eq!(state.handle_of(WindowId(5)), None);
    assert!(state.is_id_in_use(WindowId(7)));
    assert!(state.is_id_in_use(WindowId(8)));
    let requested = state.take_requested_windows();
    assert_eq!(requested.len(), 2);
    assert_eq!(requested[0].id, WindowId(7));
    assert_eq!(requested[1].id, WindowId(8));
    assert!(state.take_requested_windows().is_empty());
    let answers: Vec<_> = requested.into_iter().map(|w| {
        let accepted = w.id == WindowId(7);
        (w, accepted)
    }).collect();
    state.new_windows(answers).unwrap();
    assert_eq!(state.take_new_window().unwrap().id, WindowId(7));
    assert!(state.take_new_window().is_none());
    assert!(!state.stop_requested());
    {
        let mut ctx = DriverCtx::new(&mut state);
        driver.on_close_requested(WindowId(70), &mut ctx);
    }
    assert!(state.stop_requested());
}

#[test]
fn closing_through_context_drops_surface_and_handle() {
    let mut state = State::new(vec![]);
    open(&mut state, 5, 50);
    state.insert_surface(WindowId(50), (1, 1));
    {
        let mut ctx = DriverCtx::new(&mut state);
        ctx.close_window(WindowId(5));
    }
    assert!(state.surface(WindowId(50)).is_none());
    assert!(!state.has_window(WindowId(50)));
    assert!(!state.is_id_in_use(WindowId(5)));
}

#[test]
fn action_reaches_render_root() {
    let mut state = State::new(vec![]);
    open(&mut state, 5, 50);
    let mut driver = Recorder { actions: vec![] };
    {
        let mut ctx = DriverCtx::new(&mut state);
        driver.on_action(WindowId(5), &mut ctx, 1, "a".to_string());
    }
    assert_eq!(state.windows.get(&50).unwrap().render_root, "root5*");
}

#[test]
fn exit_requests_stop() {
    let mut state = State::new(vec![]);
    {
        let mut ctx = DriverCtx::new(&mut state);
        ctx.exit();
    }
    assert!(state.stop_requested());
    state.request_stop();
    assert!(state.stop_requested());
}

#[test]
fn user_event_reaches_open_window() {
    let mut state = State::new(vec![]);
    open(&mut state, 5, 50);
    {
        let routed = state.route_user_event(MasonryUserEvent::Action(WindowId(5), "go".to_string(), 9));
        let (window, action, widget) = routed.unwrap();
        assert_eq!(window.window_id, WindowId(5));
        assert_eq!(action, "go");
        assert_eq!(widget, 9);
        window.render_root.push('+');
    }
    assert_eq!(state.windows.get(&50).unwrap().render_root, "root5+");
    state.close_handle(WindowId(50));
    open(&mut state, 6, 60);
    let routed = state.route_user_event(MasonryUserEvent::Action(WindowId(6), "moved".to_string(), 1));
    assert_eq!(routed.unwrap().0.window_id, WindowId(6));
}

#[test]
fn created_window_is_reachable_by_its_id() {
    let mut state = State::new(vec![]);
    open(&mut state, 9, 90);
    let mut ctx = DriverCtx::new(&mut state);
    assert_eq!(ctx.window(WindowId(9)).unwrap().window_id, WindowId(9));
    assert_eq!(ctx.render_root(WindowId(9)).unwrap(), "root9");
}

#[test]
fn closing_restores_state_before_creation() {
    let mut state = State::new(vec![]);
    open(&mut state, 1, 10);
    state.insert_surface(WindowId(10), (1, 1));
    open(&mut state, 2, 20);
    state.close_window(WindowId(2));
    assert_eq!(state.windows.len(), 1);
    assert!(state.surface(WindowId(10)).is_some());
    assert!(state.surface(WindowId(20)).is_none());
    assert_eq!(state.handle_id(WindowId(1)), WindowId(10));
}

#[test]
fn handle_of_unknown_id_is_none() {
    let mut state = State::new(vec![]);
    assert_eq!(state.handle_of(WindowId(4)), None);
    open(&mut state, 4, 40);
    assert_eq!(state.handle_of(WindowId(4)), Some(WindowId(40)));
    state.close_window(WindowId(4));
    assert_eq!(state.handle_of(WindowId(4)), None);
}
