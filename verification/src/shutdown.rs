//! The screen the kiosk shows while the machine is on its way down.
//!
//! The trigger is a marker file, not a signal: whatever starts a reboot creates
//! the file, and the screen goes up. Once shown it stays; it is only hidden for
//! the marker being removed again. Paths are bytes, as they are on the systems
//! the kiosk runs on.
use vstd::prelude::*;
use vstd::utf8::encode_utf8;

verus! {

/// Basename of the marker, under the runtime directory.
pub const MARKER: &'static str = "sfo-kiosk-restarting";

/// How large the logo is shown.
pub const LOGO_PIXELS: i32 = 120;

/// One of the things on the screen, which stand below each other.
#[derive(Debug)]
pub enum Item {
    /// The image at a path, at a size.
    Logo { path: String, pixels: i32 },
    Spinner,
    Heading(String),
    Body(String),
}

pub ghost enum ItemView {
    Logo { path: Seq<char>, pixels: int },
    Spinner,
    Heading(Seq<char>),
    Body(Seq<char>),
}

impl View for Item {
    type V = ItemView;

    open spec fn view(&self) -> ItemView {
        match *self {
            Item::Logo { path, pixels } => ItemView::Logo { path: path@, pixels: pixels as int },
            Item::Spinner => ItemView::Spinner,
            Item::Heading(text) => ItemView::Heading(text@),
            Item::Body(text) => ItemView::Body(text@),
        }
    }
}

/// The restart screen of one output.
#[derive(Debug)]
pub struct Restarting {
    items: Vec<Item>,
    visible: bool,
    spinning: bool,
    /// It eats every press: no reaching a button while the machine is going
    /// down.
    takes_presses: bool,
}

pub ghost struct RestartingView {
    pub items: Seq<ItemView>,
    pub visible: bool,
    pub spinning: bool,
    pub takes_presses: bool,
}

impl View for Restarting {
    type V = RestartingView;

    closed spec fn view(&self) -> RestartingView {
        RestartingView {
            items: self.items@.map_values(|item: Item| item@),
            visible: self.visible,
            spinning: self.spinning,
            takes_presses: self.takes_presses,
        }
    }
}

/// What to do with the restart screen of every output.
#[derive(Clone, Copy, PartialEq, Eq, Structural, Debug)]
pub enum Order {
    Show,
    Hide,
    Keep,
}

/// A change of the marker file.
#[derive(Clone, Copy, PartialEq, Eq, Structural, Debug)]
pub enum MarkerEvent {
    Created,
    Deleted,
    Other,
}

/// A step of a request for a restart.
#[derive(Debug)]
pub enum RestartStep {
    /// Raise the restart screen of every output.
    Show,
    /// Create the file at this path. A failure is logged and otherwise ignored.
    CreateMarker(Vec<u8>),
}

pub ghost enum RestartStepView {
    Show,
    CreateMarker(Seq<u8>),
}

impl View for RestartStep {
    type V = RestartStepView;

    open spec fn view(&self) -> RestartStepView {
        match *self {
            RestartStep::Show => RestartStepView::Show,
            RestartStep::CreateMarker(path) => RestartStepView::CreateMarker(path@),
        }
    }
}

/// What stands on the screen, from top to bottom.
pub open spec fn screen_items(logo: Option<Seq<char>>) -> Seq<ItemView> {
    let rest = seq![
        ItemView::Spinner,
        ItemView::Heading("Restarting"@),
        ItemView::Body("Applying the change. This takes about a minute."@),
    ];
    match logo {
        Some(path) => seq![ItemView::Logo { path, pixels: LOGO_PIXELS as int }] + rest,
        None => rest,
    }
}

/// A new screen: hidden, with its spinner at rest, and such that it takes every
/// press once it is up.
pub open spec fn new_screen(logo: Option<Seq<char>>) -> RestartingView {
    RestartingView {
        items: screen_items(logo),
        visible: false,
        spinning: false,
        takes_presses: true,
    }
}

/// The path of the marker in the directory `dir`: one separator stands between
/// the two, unless `dir` is empty or ends in one.
pub open spec fn marker_in(dir: Seq<u8>) -> Seq<u8> {
    if dir.len() == 0 || dir.last() == 0x2f {
        dir + encode_utf8(MARKER@)
    } else {
        dir.push(0x2f) + encode_utf8(MARKER@)
    }
}

/// The steps of a request for a restart, in order.
pub open spec fn restart_steps(runtime_dir: Option<Seq<u8>>) -> Seq<RestartStepView> {
    match runtime_dir {
        Some(dir) => seq![RestartStepView::Show, RestartStepView::CreateMarker(marker_in(dir))],
        None => seq![RestartStepView::Show],
    }
}

/// What a change of the marker file calls for.
pub open spec fn order_for(event: MarkerEvent) -> Order {
    match event {
        MarkerEvent::Created => Order::Show,
        MarkerEvent::Deleted => Order::Hide,
        MarkerEvent::Other => Order::Keep,
    }
}

/// What a change of the marker file calls for, where there is a monitor on it or
/// not.
pub open spec fn watch_order(monitored: bool, event: MarkerEvent) -> Order {
    if monitored {
        order_for(event)
    } else {
        Order::Keep
    }
}

/// What a look for the marker at startup calls for.
pub open spec fn startup_order(present: bool) -> Order {
    if present {
        Order::Show
    } else {
        Order::Keep
    }
}

impl RestartingView {
    pub open spec fn shown(self) -> RestartingView {
        RestartingView { visible: true, spinning: true, ..self }
    }

    pub open spec fn hidden(self) -> RestartingView {
        RestartingView { visible: false, spinning: false, ..self }
    }

    pub open spec fn obeying(self, order: Order) -> RestartingView {
        match order {
            Order::Show => self.shown(),
            Order::Hide => self.hidden(),
            Order::Keep => self,
        }
    }
}

pub open spec fn text_of(s: Option<&str>) -> Option<Seq<char>> {
    match s {
        Some(s) => Some(s@),
        None => None,
    }
}

pub open spec fn bytes_of(s: Option<&[u8]>) -> Option<Seq<u8>> {
    match s {
        Some(s) => Some(s@),
        None => None,
    }
}

/// One output's restart screen, hidden. `logo` is the path of an image to show
/// above the text.
pub fn build(logo: Option<&str>) -> (r: Restarting)
    ensures
        r@ == new_screen(text_of(logo)),
{
    let mut items: Vec<Item> = Vec::new();
    if let Some(path) = logo {
        items.push(Item::Logo { path: path.to_owned(), pixels: LOGO_PIXELS });
    }
    items.push(Item::Spinner);
    items.push(Item::Heading("Restarting".to_owned()));
    items.push(Item::Body("Applying the change. This takes about a minute.".to_owned()));
    assert(items@.map_values(|item: Item| item@) =~= screen_items(text_of(logo)));
    Restarting { items, visible: false, spinning: false, takes_presses: true }
}

impl Restarting {
    /// Raises the screen.
    pub fn show(&mut self)
        ensures
            final(self)@ == old(self)@.shown(),
    {
        self.spinning = true;
        self.visible = true;
    }

    /// Takes the screen down. Only for the marker being deleted: a restart that
    /// was announced and then called off.
    pub fn hide_screen(&mut self)
        ensures
            final(self)@ == old(self)@.hidden(),
    {
        self.visible = false;
        self.spinning = false;
    }

    /// Shows or hides the screen as `order` says.
    pub fn obey(&mut self, order: Order)
        ensures
            final(self)@ == old(self)@.obeying(order),
    {
        match order {
            Order::Show => self.show(),
            Order::Hide => self.hide_screen(),
            Order::Keep => {},
        }
    }

    /// What stands on the screen, from top to bottom.
    pub fn items(&self) -> (r: &Vec<Item>)
        ensures
            r@.map_values(|item: Item| item@) == self@.items,
    {
        &self.items
    }

    /// Whether the screen is up.
    pub fn is_visible(&self) -> (r: bool)
        ensures
            r == self@.visible,
    {
        self.visible
    }

    /// Whether the screen takes the presses on it.
    pub fn takes_presses(&self) -> (r: bool)
        ensures
            r == self@.takes_presses,
    {
        self.takes_presses
    }

    /// Whether the spinner on it turns.
    pub fn is_spinning(&self) -> (r: bool)
        ensures
            r == self@.spinning,
    {
        self.spinning
    }
}

/// The path of the marker in the directory `dir`.
fn marker_path(dir: &[u8]) -> (r: Vec<u8>)
    ensures
        r@ == marker_in(dir@),
{
    let mut path: Vec<u8> = vstd::slice::slice_to_vec(dir);
    if dir.len() > 0 && dir[dir.len() - 1] != 0x2f {
        path.push(0x2f);
    }
    path.extend_from_slice(MARKER.as_bytes());
    path
}

/// Asks for the restart screen: raise it now, and drop the marker in the runtime
/// directory, where there is one, so that a kiosk that crashes in the window that
/// follows comes back showing it.
pub fn request_restart(runtime_dir: Option<&[u8]>) -> (r: Vec<RestartStep>)
    ensures
        r@.map_values(|step: RestartStep| step@) == restart_steps(bytes_of(runtime_dir)),
{
    let mut steps: Vec<RestartStep> = Vec::new();
    steps.push(RestartStep::Show);
    if let Some(dir) = runtime_dir {
        steps.push(RestartStep::CreateMarker(marker_path(dir)));
    }
    assert(steps@.map_values(|step: RestartStep| step@) =~= restart_steps(bytes_of(runtime_dir)));
    steps
}

/// A watch on the marker file.
#[derive(Debug)]
pub struct Watch {
    path: Vec<u8>,
    monitored: bool,
}

pub ghost struct WatchView {
    /// The path that is watched.
    pub path: Seq<u8>,
    /// Whether there is a monitor on it.
    pub monitored: bool,
}

impl View for Watch {
    type V = WatchView;

    closed spec fn view(&self) -> WatchView {
        WatchView { path: self.path@, monitored: self.monitored }
    }
}

/// A watch on the marker in the runtime directory. Without a runtime directory
/// there is none, and the restart screen will not be shown.
pub fn watch(runtime_dir: Option<&[u8]>) -> (r: Option<Watch>)
    ensures
        r is Some <==> runtime_dir is Some,
        r matches Some(watch) ==> watch@ == (WatchView {
            path: marker_in(runtime_dir->0@),
            monitored: false,
        }),
{
    match runtime_dir {
        Some(dir) => Some(Watch { path: marker_path(dir), monitored: false }),
        None => None,
    }
}

impl Watch {
    /// The path to watch.
    pub fn path(&self) -> (r: &Vec<u8>)
        ensures
            r@ == self@.path,
    {
        &self.path
    }

    /// Whether a marker is there already: a restart was requested before this
    /// process was up, and is honoured now.
    pub fn started(&self, present: bool) -> (r: Order)
        ensures
            r == startup_order(present),
    {
        if present {
            Order::Show
        } else {
            Order::Keep
        }
    }

    /// A monitor for the path was made, or there is a reason why none could be. A
    /// monitor is parked in `hold`, so that it lives on. The reason comes back to
    /// be logged: nothing is parked then, and no screen is shown or hidden later.
    pub fn monitored<M>(&mut self, got: Result<M, String>, hold: &mut MonitorHold<M>) -> (r: Option<
        String,
    >)
        ensures
            final(self)@ == (WatchView { monitored: got is Ok, ..old(self)@ }),
            got matches Ok(monitor) ==> final(hold)@ == Some(monitor) && r is None,
            got matches Err(why) ==> final(hold)@ == old(hold)@ && r is Some && r->0@ == why@,
    {
        match got {
            Ok(monitor) => {
                self.monitored = true;
                hold.set(monitor);
                None
            },
            Err(why) => {
                self.monitored = false;
                Some(why)
            },
        }
    }

    /// Whether there is a monitor on the path.
    pub fn is_monitored(&self) -> (r: bool)
        ensures
            r == self@.monitored,
    {
        self.monitored
    }

    /// The marker file has changed. Without a monitor nothing follows from that.
    pub fn changed(&self, event: MarkerEvent) -> (r: Order)
        ensures
            r == watch_order(self@.monitored, event),
    {
        if !self.monitored {
            return Order::Keep;
        }
        match event {
            MarkerEvent::Created => Order::Show,
            MarkerEvent::Deleted => Order::Hide,
            MarkerEvent::Other => Order::Keep,
        }
    }
}

/// The parked file monitor. Held, never read: it has to outlive the call that
/// made it, and there is exactly one for the whole run.
#[derive(Debug)]
pub struct MonitorHold<M> {
    held: Option<M>,
}

impl<M> View for MonitorHold<M> {
    type V = Option<M>;

    closed spec fn view(&self) -> Option<M> {
        self.held
    }
}

impl<M> Default for MonitorHold<M> {
    fn default() -> (r: Self)
        ensures
            r@ == None::<M>,
    {
        MonitorHold { held: None }
    }
}

impl<M> MonitorHold<M> {
    /// Parks `monitor`, in place of any that was parked before.
    pub fn set(&mut self, monitor: M)
        ensures
            final(self)@ == Some(monitor),
    {
        self.held = Some(monitor);
    }
}

/// The screen after a look for the marker at startup and then `events`, where
/// there is a monitor on the marker or not.
pub open spec fn following(
    s: RestartingView,
    present: bool,
    monitored: bool,
    events: Seq<MarkerEvent>,
) -> RestartingView
    decreases events.len(),
{
    if events.len() == 0 {
        s.obeying(startup_order(present))
    } else {
        following(s, present, monitored, events.drop_last()).obeying(
            watch_order(monitored, events.last()),
        )
    }
}

/// Whether the marker is there after `events`, where it was there before them or
/// not.
pub open spec fn marker_present(present: bool, events: Seq<MarkerEvent>) -> bool
    decreases events.len(),
{
    if events.len() == 0 {
        present
    } else {
        match events.last() {
            MarkerEvent::Created => true,
            MarkerEvent::Deleted => false,
            MarkerEvent::Other => marker_present(present, events.drop_last()),
        }
    }
}

/// Every screen follows a marker with a monitor on it: one that starts hidden is up exactly while
/// the file is there, and its spinner turns exactly while it is up.
pub proof fn law_screen_follows_marker(s: RestartingView, present: bool, events: Seq<MarkerEvent>)
    requires
        !s.visible,
        !s.spinning,
    ensures
        following(s, present, true, events).visible == marker_present(present, events),
        following(s, present, true, events).spinning == following(
            s,
            present,
            true,
            events,
        ).visible,
        following(s, present, true, events).items == s.items,
        following(s, present, true, events).takes_presses == s.takes_presses,
    decreases events.len(),
{
    if events.len() > 0 {
        law_screen_follows_marker(s, present, events.drop_last());
    }
}

/// Where there can be no monitor, a marker that was there at startup is honoured,
/// and nothing that happens to it later shows or hides a screen.
pub proof fn law_nothing_follows_unwatched(
    s: RestartingView,
    present: bool,
    events: Seq<MarkerEvent>,
)
    ensures
        following(s, present, false, events) == (if present {
            s.shown()
        } else {
            s
        }),
    decreases events.len(),
{
    if events.len() > 0 {
        law_nothing_follows_unwatched(s, present, events.drop_last());
    }
}

/// A new screen is hidden and at rest, and without a logo holds the spinner, the
/// heading and the text below it.
pub proof fn law_new_screen(logo: Option<Seq<char>>)
    ensures
        !new_screen(logo).visible,
        !new_screen(logo).spinning,
        new_screen(logo).takes_presses,
        new_screen(None).items == seq![
            ItemView::Spinner,
            ItemView::Heading("Restarting"@),
            ItemView::Body("Applying the change. This takes about a minute."@),
        ],
{
}

/// Showing and hiding change whether the screen is up and its spinner turns, and
/// nothing else, whatever state it is in; an order does what it says.
pub proof fn law_orders(s: RestartingView)
    ensures
        s.shown() == (RestartingView { visible: true, spinning: true, ..s }),
        s.hidden() == (RestartingView { visible: false, spinning: false, ..s }),
        s.obeying(Order::Show) == (RestartingView { visible: true, spinning: true, ..s }),
        s.obeying(Order::Hide) == (RestartingView { visible: false, spinning: false, ..s }),
        s.obeying(Order::Keep) == s,
{
}

/// Only the creation of a watched marker raises the screen, and only its removal
/// takes it down; at startup only a marker that is there raises it.
pub proof fn law_what_calls_for_what(monitored: bool, event: MarkerEvent, present: bool)
    ensures
        watch_order(monitored, event) == Order::Show <==> monitored && event
            == MarkerEvent::Created,
        watch_order(monitored, event) == Order::Hide <==> monitored && event
            == MarkerEvent::Deleted,
        startup_order(present) == Order::Show <==> present,
        startup_order(present) != Order::Hide,
{
}

/// A path or a directory that is given is taken as it is, byte for byte, and one
/// that is not is none.
pub proof fn law_given_as_it_is(s: &str, b: &[u8])
    ensures
        text_of(Some(s)) == Some(s@),
        text_of(None) is None,
        bytes_of(Some(b)) == Some(b@),
        bytes_of(None) is None,
{
}

/// A logo stands above everything else and changes nothing else: the screen with
/// one is the screen without, with the image put in front.
pub proof fn law_logo_in_front(path: Seq<char>)
    ensures
        new_screen(Some(path)) == (RestartingView {
            items: seq![ItemView::Logo { path, pixels: 120 }] + new_screen(None).items,
            ..new_screen(None)
        }),
{
}

/// A screen takes every press, from when it is built on, whatever happens to the
/// marker.
pub proof fn law_screen_takes_every_press(
    logo: Option<Seq<char>>,
    present: bool,
    monitored: bool,
    events: Seq<MarkerEvent>,
)
    ensures
        following(new_screen(logo), present, monitored, events).takes_presses,
    decreases events.len(),
{
    if events.len() > 0 {
        law_screen_takes_every_press(logo, present, monitored, events.drop_last());
    }
}

/// Once shown the screen stays, through anything but the removal of the marker.
pub proof fn law_shown_stays(
    s: RestartingView,
    present: bool,
    monitored: bool,
    events: Seq<MarkerEvent>,
)
    requires
        forall|k: int| 0 <= k < events.len() ==> #[trigger] events[k] != MarkerEvent::Deleted,
    ensures
        following(s.shown(), present, monitored, events) == s.shown(),
    decreases events.len(),
{
    if events.len() > 0 {
        assert(forall|k: int|
            0 <= k < events.len() - 1 ==> #[trigger] events.drop_last()[k] == events[k]);
        assert(events.last() == events[events.len() - 1]);
        law_shown_stays(s, present, monitored, events.drop_last());
    }
}

/// To show a screen twice is to show it once, and hiding it undoes both.
pub proof fn law_show_is_idempotent(s: RestartingView)
    ensures
        s.shown().shown() == s.shown(),
        s.hidden().hidden() == s.hidden(),
        s.shown().hidden() == s.hidden(),
        s.hidden().shown() == s.shown(),
{
}

/// A request and a watch speak of the same file: what a request creates is what a
/// watch in the same runtime directory watches, and it raises the screen before
/// that.
pub proof fn law_request_reaches_watch(dir: Seq<u8>)
    ensures
        restart_steps(Some(dir)).len() == 2,
        restart_steps(Some(dir))[0] == RestartStepView::Show,
        restart_steps(Some(dir))[1] == RestartStepView::CreateMarker(marker_in(dir)),
        restart_steps(None) == seq![RestartStepView::Show],
{
}

/// The marker lies in the runtime directory: its path begins with that of the
/// directory, ends in the marker's name, and holds at most a separator between.
pub proof fn law_marker_lies_in_directory(dir: Seq<u8>)
    ensures
        dir.is_prefix_of(marker_in(dir)),
        encode_utf8(MARKER@).is_suffix_of(marker_in(dir)),
        dir.len() > 0 ==> marker_in(dir)[marker_in(dir).len() - encode_utf8(MARKER@).len() - 1]
            == 0x2f,
        dir.len() + encode_utf8(MARKER@).len() <= marker_in(dir).len() <= dir.len() + 1
            + encode_utf8(MARKER@).len(),
        MARKER@ == "sfo-kiosk-restarting"@,
        (dir.len() == 0 || dir[dir.len() - 1] == 0x2f) ==> marker_in(dir) == dir + encode_utf8(
            "sfo-kiosk-restarting"@,
        ),
        (dir.len() > 0 && dir[dir.len() - 1] != 0x2f) ==> marker_in(dir) == dir + seq![0x2fu8]
            + encode_utf8("sfo-kiosk-restarting"@),
{
    let path = marker_in(dir);
    let name = encode_utf8(MARKER@);
    assert(path.subrange(0, dir.len() as int) =~= dir);
    assert(path.subrange(path.len() - name.len(), path.len() as int) =~= name);
}

/// What is handed back is meant to the letter: texts, paths and the size of the logo
/// are the whole of what there is.
pub proof fn law_handed_over_to_the_letter(text: String, pixels: i32, path: Vec<u8>)
    ensures
        (Item::Logo { path: text, pixels })@ == (ItemView::Logo {
            path: text@,
            pixels: pixels as int,
        }),
        Item::Spinner@ == ItemView::Spinner,
        Item::Heading(text)@ == ItemView::Heading(text@),
        Item::Body(text)@ == ItemView::Body(text@),
        RestartStep::Show@ == RestartStepView::Show,
        RestartStep::CreateMarker(path)@ == RestartStepView::CreateMarker(path@),
{
}

} // verus!
