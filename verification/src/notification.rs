//! The queue of pending notifications: keyed replacement, a bounded
//! length, fresh ids and the autohide timers.
use vstd::prelude::*;
use std::collections::VecDeque;
use crate::text_offsets::str_equal;

verus! {

/// Where the notification center stands in the window.
#[derive(Debug, Clone, Copy, PartialEq, Eq, Structural)]
pub enum NotificationPlacement {
    TopLeft,
    TopRight,
    BottomLeft,
    BottomRight,
    TopCenter,
    BottomCenter,
}

impl Default for NotificationPlacement {
    fn default() -> (r: Self)
        ensures
            r == NotificationPlacement::TopRight,
    {
        NotificationPlacement::TopRight
    }
}

impl NotificationPlacement {
    /// Whether the center stands at the bottom of the window (the newest
    /// notification is then drawn last).
    pub fn is_bottom(self) -> (r: bool)
        ensures
            r == (self is BottomLeft || self is BottomRight || self is BottomCenter),
    {
        match self {
            NotificationPlacement::BottomLeft
            | NotificationPlacement::BottomRight
            | NotificationPlacement::BottomCenter => true,
            _ => false,
        }
    }
}

/// The kind of a notification, which picks its icon and color.
#[derive(Debug, Clone, Copy, PartialEq, Eq, Structural)]
pub enum NotificationType {
    Info,
    Success,
    Warning,
    Error,
}

impl Default for NotificationType {
    fn default() -> (r: Self)
        ensures
            r == NotificationType::Info,
    {
        NotificationType::Info
    }
}

/// The icon drawn beside a notification.
#[derive(Debug, Clone, Copy, PartialEq, Eq, Structural)]
pub enum NotificationIcon {
    Alert,
    CheckmarkCircle,
    AlertUrgent,
    DismissCircle,
}

impl NotificationType {
    /// The icon of this kind.
    pub fn icon(&self) -> (r: NotificationIcon)
        ensures
            r == match *self {
                NotificationType::Info => NotificationIcon::Alert,
                NotificationType::Success => NotificationIcon::CheckmarkCircle,
                NotificationType::Warning => NotificationIcon::AlertUrgent,
                NotificationType::Error => NotificationIcon::DismissCircle,
            },
    {
        match self {
            NotificationType::Info => NotificationIcon::Alert,
            NotificationType::Success => NotificationIcon::CheckmarkCircle,
            NotificationType::Warning => NotificationIcon::AlertUrgent,
            NotificationType::Error => NotificationIcon::DismissCircle,
        }
    }
}

/// What a notification says and how it behaves, as values.
pub struct NotificationView {
    pub key: Option<Seq<char>>,
    pub kind: NotificationType,
    pub title: Option<Seq<char>>,
    pub message: Option<Seq<char>>,
    pub autohide: bool,
    pub duration_ms: Option<u64>,
    pub action_label: Option<Seq<char>>,
}

/// A notification to show: its key, kind, texts, whether it hides by
/// itself and after how long (`None`: the default duration), and the label
/// of its action button.
pub struct Notification {
    key: Option<String>,
    kind: NotificationType,
    title: Option<String>,
    message: Option<String>,
    autohide: bool,
    duration_ms: Option<u64>,
    action_label: Option<String>,
}

/// A notification as `Notification::new` makes it: `Info`, without texts
/// or action, hiding by itself after the default duration.
pub open spec fn fresh_notification() -> NotificationView {
    NotificationView {
        key: None,
        kind: NotificationType::Info,
        title: None,
        message: None,
        autohide: true,
        duration_ms: None,
        action_label: None,
    }
}

impl View for Notification {
    type V = NotificationView;

    closed spec fn view(&self) -> NotificationView {
        NotificationView {
            key: key_view(self.key),
            kind: self.kind,
            title: key_view(self.title),
            message: key_view(self.message),
            autohide: self.autohide,
            duration_ms: self.duration_ms,
            action_label: key_view(self.action_label),
        }
    }
}

impl Default for Notification {
    fn default() -> (r: Self)
        ensures
            r@ == fresh_notification(),
    {
        Notification::new()
    }
}

impl Notification {
    /// An `Info` notification without texts or action, that hides by itself
    /// after the default duration.
    pub fn new() -> (r: Self)
        ensures
            r@ == fresh_notification(),
    {
        Notification {
            key: None,
            kind: NotificationType::Info,
            title: None,
            message: None,
            autohide: true,
            duration_ms: None,
            action_label: None,
        }
    }

    /// Sets the key: a newer notification with the same key replaces it.
    pub fn key(self, key: &str) -> (r: Self)
        ensures
            r@ == (NotificationView { key: Some(key@), ..self@ }),
    {
        let mut n = self;
        n.key = Some(key.to_owned());
        n
    }

    /// Sets the kind.
    pub fn with_type(self, kind: NotificationType) -> (r: Self)
        ensures
            r@ == (NotificationView { kind, ..self@ }),
    {
        let mut n = self;
        n.kind = kind;
        n
    }

    /// A new notification of kind `kind` with the message `message`.
    fn of_kind(kind: NotificationType, message: &str) -> (r: Self)
        ensures
            r@ == (NotificationView { kind, message: Some(message@), ..fresh_notification() }),
    {
        Notification::new().with_type(kind).message(message)
    }

    /// An `Info` notification with a message.
    pub fn info(message: &str) -> (r: Self)
        ensures
            r@ == (NotificationView {
                kind: NotificationType::Info,
                message: Some(message@),
                ..fresh_notification()
            }),
    {
        Self::of_kind(NotificationType::Info, message)
    }

    /// A `Success` notification with a message.
    pub fn success(message: &str) -> (r: Self)
        ensures
            r@ == (NotificationView {
                kind: NotificationType::Success,
                message: Some(message@),
                ..fresh_notification()
            }),
    {
        Self::of_kind(NotificationType::Success, message)
    }

    /// A `Warning` notification with a message.
    pub fn warning(message: &str) -> (r: Self)
        ensures
            r@ == (NotificationView {
                kind: NotificationType::Warning,
                message: Some(message@),
                ..fresh_notification()
            }),
    {
        Self::of_kind(NotificationType::Warning, message)
    }

    /// An `Error` notification with a message.
    pub fn error(message: &str) -> (r: Self)
        ensures
            r@ == (NotificationView {
                kind: NotificationType::Error,
                message: Some(message@),
                ..fresh_notification()
            }),
    {
        Self::of_kind(NotificationType::Error, message)
    }

    /// Sets the title.
    pub fn title(self, title: &str) -> (r: Self)
        ensures
            r@ == (NotificationView { title: Some(title@), ..self@ }),
    {
        let mut n = self;
        n.title = Some(title.to_owned());
        n
    }

    /// Sets the message.
    pub fn message(self, message: &str) -> (r: Self)
        ensures
            r@ == (NotificationView { message: Some(message@), ..self@ }),
    {
        let mut n = self;
        n.message = Some(message.to_owned());
        n
    }

    /// Sets whether the notification hides by itself.
    pub fn autohide(self, autohide: bool) -> (r: Self)
        ensures
            r@ == (NotificationView { autohide, ..self@ }),
    {
        let mut n = self;
        n.autohide = autohide;
        n
    }

    /// Sets how long, in milliseconds, the notification stays before it
    /// hides by itself.
    pub fn duration(self, duration_ms: u64) -> (r: Self)
        ensures
            r@ == (NotificationView { duration_ms: Some(duration_ms), ..self@ }),
    {
        let mut n = self;
        n.duration_ms = Some(duration_ms);
        n
    }

    /// Adds an action button labelled `label`; the notification then stays
    /// until acted on (autohide is switched off).
    pub fn action(self, label: &str) -> (r: Self)
        ensures
            r@ == (NotificationView { action_label: Some(label@), autohide: false, ..self@ }),
    {
        let mut n = self;
        n.action_label = Some(label.to_owned());
        n.autohide = false;
        n
    }

    /// Whether the notification hides by itself.
    pub fn is_autohide(&self) -> (r: bool)
        ensures
            r == self@.autohide,
    {
        self.autohide
    }

    /// The label of the action button, if any.
    pub fn action_label(&self) -> (r: Option<&String>)
        ensures
            key_view(match r {
                Some(s) => Some(*s),
                None => None,
            }) == self@.action_label,
    {
        match &self.action_label {
            Some(s) => Some(s),
            None => None,
        }
    }

    /// The kind.
    pub fn kind(&self) -> (r: NotificationType)
        ensures
            r == self@.kind,
    {
        self.kind
    }

    /// The message, if any.
    pub fn message_text(&self) -> (r: Option<&String>)
        ensures
            key_view(match r {
                Some(s) => Some(*s),
                None => None,
            }) == self@.message,
    {
        match &self.message {
            Some(s) => Some(s),
            None => None,
        }
    }
}

/// A pending notification as the queue sees it.
pub struct Pending {
    pub id: usize,
    pub key: Option<Seq<char>>,
    pub autohide: bool,
    pub duration_ms: u64,
    pub timer_epoch: u64,
    pub started_at: Option<u64>,
    pub hovered: bool,
}

/// A pending notification; its content is kept by the caller under `id`.
pub struct NotificationItem {
    id: usize,
    key: Option<String>,
    autohide: bool,
    duration_ms: u64,
    timer_epoch: u64,
    started_at: Option<u64>,
    hovered: bool,
}

pub open spec fn key_view(k: Option<String>) -> Option<Seq<char>> {
    match k {
        Some(s) => Some(s@),
        None => None,
    }
}

impl NotificationItem {
    pub closed spec fn view(&self) -> Pending {
        Pending {
            id: self.id,
            key: key_view(self.key),
            autohide: self.autohide,
            duration_ms: self.duration_ms,
            timer_epoch: self.timer_epoch,
            started_at: self.started_at,
            hovered: self.hovered,
        }
    }

    /// A copy of this item.
    fn duplicate(&self) -> (r: NotificationItem)
        ensures
            r.view() == self.view(),
    {
        let key = match &self.key {
            Some(k) => Some(k.clone()),
            None => None,
        };
        NotificationItem {
            id: self.id,
            key,
            autohide: self.autohide,
            duration_ms: self.duration_ms,
            timer_epoch: self.timer_epoch,
            started_at: self.started_at,
            hovered: self.hovered,
        }
    }
}

/// The views of `items`.
pub open spec fn views(items: Seq<NotificationItem>) -> Seq<Pending> {
    Seq::new(items.len(), |i: int| items[i].view())
}

/// `items` without those whose key is `key`, in order.
pub open spec fn without_key(items: Seq<Pending>, key: Seq<char>) -> Seq<Pending>
    decreases items.len(),
{
    if items.len() == 0 {
        Seq::empty()
    } else {
        let rest = without_key(items.drop_last(), key);
        if items.last().key == Some(key) {
            rest
        } else {
            rest.push(items.last())
        }
    }
}

/// `items` without the one whose id is `id`, in order.
pub open spec fn without_id(items: Seq<Pending>, id: usize) -> Seq<Pending>
    decreases items.len(),
{
    if items.len() == 0 {
        Seq::empty()
    } else {
        let rest = without_id(items.drop_last(), id);
        if items.last().id == id {
            rest
        } else {
            rest.push(items.last())
        }
    }
}

/// The last `max` items of `items` (all of them when there are fewer).
pub open spec fn newest(items: Seq<Pending>, max: int) -> Seq<Pending> {
    if items.len() > max {
        items.subrange(items.len() - max, items.len() as int)
    } else {
        items
    }
}

/// The item a push appends: its timer runs from `now_ms` when it hides by
/// itself.
pub open spec fn pushed_item(
    id: usize,
    key: Option<Seq<char>>,
    autohide: bool,
    duration_ms: u64,
    now_ms: u64,
) -> Pending {
    Pending {
        id,
        key,
        autohide,
        duration_ms,
        timer_epoch: if autohide {
            1
        } else {
            0
        },
        started_at: if autohide {
            Some(now_ms)
        } else {
            None
        },
        hovered: false,
    }
}

/// The queue after a push: the pending notifications with the same key
/// removed, the new one appended, and the oldest dropped beyond `max`.
pub open spec fn after_push(
    items: Seq<Pending>,
    max: int,
    new_item: Pending,
) -> Seq<Pending> {
    let kept = match new_item.key {
        Some(k) => without_key(items, k),
        None => items,
    };
    newest(kept.push(new_item), max)
}

/// Ids strictly increase along the queue and stay below `next_id`.
pub open spec fn ids_ordered(items: Seq<Pending>, next_id: int) -> bool {
    &&& forall|i: int, j: int| 0 <= i < j < items.len() ==> items[i].id < items[j].id
    &&& forall|i: int| 0 <= i < items.len() ==> items[i].id < next_id
}

/// How far an autohide countdown has run.
#[derive(Debug, Clone, Copy, PartialEq, Eq, Structural)]
pub enum Progress {
    /// The countdown is paused or not started: nothing has run down.
    Full,
    /// The notification has no time to show: everything has run down.
    Empty,
    /// `elapsed_ms` of `duration_ms` have run down.
    Running { elapsed_ms: u64, duration_ms: u64 },
}

/// What a tick of an autohide timer decides.
#[derive(Debug, Clone, Copy, PartialEq, Eq, Structural)]
pub enum TimerTick {
    /// The timer is stale or the notification gone: stop ticking.
    Stop,
    /// The time is up: the notification was closed; stop ticking.
    Closed,
    /// Keep ticking.
    Continue,
}

/// The pending notifications, oldest first.
pub struct NotificationState {
    items: VecDeque<NotificationItem>,
    max_items: usize,
    next_id: usize,
}

impl NotificationState {
    pub closed spec fn queue(&self) -> Seq<Pending> {
        views(self.items@)
    }

    pub closed spec fn max(&self) -> int {
        self.max_items as int
    }

    pub closed spec fn next_id_spec(&self) -> int {
        self.next_id as int
    }

    /// At least one notification is kept, and ids increase along the queue
    /// below the next id to hand out.
    pub closed spec fn wf(&self) -> bool {
        &&& self.max_items >= 1
        &&& self.next_id >= 1
        &&& ids_ordered(self.queue(), self.next_id as int)
    }

    /// An empty queue keeping the ten newest notifications; ids start at 1.
    pub fn new() -> (r: Self)
        ensures
            r.wf(),
            r.queue() == Seq::<Pending>::empty(),
            r.max() == 10,
            r.next_id_spec() == 1,
    {
        let r = NotificationState { items: VecDeque::new(), max_items: 10, next_id: 1 };
        assert(r.queue() =~= Seq::<Pending>::empty());
        r
    }

    /// The same queue keeping the `max_items` newest notifications, at
    /// least one.
    pub fn max_items(self, max_items: usize) -> (r: Self)
        requires
            self.wf(),
        ensures
            r.wf(),
            r.max() == if max_items >= 1 {
                max_items as int
            } else {
                1
            },
            r.queue() == self.queue(),
            r.next_id_spec() == self.next_id_spec(),
    {
        let max_items = if max_items >= 1 {
            max_items
        } else {
            1
        };
        NotificationState { max_items, ..self }
    }

    /// The id the next notification gets.
    pub fn next_id(&self) -> (r: usize)
        ensures
            r == self.next_id_spec(),
    {
        self.next_id
    }

    /// Number of pending notifications.
    pub fn len(&self) -> (r: usize)
        ensures
            r == self.queue().len(),
    {
        self.items.len()
    }

    /// The ids of the pending notifications, oldest first.
    pub fn ids(&self) -> (r: Vec<usize>)
        ensures
            r@.len() == self.queue().len(),
            forall|i: int| 0 <= i < r@.len() ==> #[trigger] r@[i] == self.queue()[i].id,
    {
        let mut out: Vec<usize> = Vec::new();
        let mut i: usize = 0;
        while i < self.items.len()
            invariant
                i <= self.items@.len(),
                out@.len() == i,
                forall|k: int| 0 <= k < i ==> #[trigger] out@[k] == self.items@[k].view().id,
            decreases self.items@.len() - i,
        {
            out.push(self.items[i].id);
            i += 1;
        }
        out
    }

    /// Position of the notification `id` in the queue.
    fn position(&self, id: usize) -> (r: Option<usize>)
        ensures
            r matches Some(i) ==> i < self.queue().len() && self.queue()[i as int].id == id,
            r is None ==> forall|i: int| 0 <= i < self.queue().len() ==> self.queue()[i].id != id,
    {
        let mut i: usize = 0;
        while i < self.items.len()
            invariant
                i <= self.items@.len(),
                forall|k: int| 0 <= k < i ==> self.items@[k].view().id != id,
            decreases self.items@.len() - i,
        {
            if self.items[i].id == id {
                return Some(i);
            }
            i += 1;
        }
        None
    }

    /// Queues a notification with the given key, autohide flag and duration,
    /// at time `now_ms`: a pending notification with the same key is
    /// replaced, the oldest are dropped beyond the limit, and the new one
    /// gets the next id, which is returned. Its timer, when it hides by
    /// itself, starts at `now_ms` with epoch 1.
    pub fn push(
        &mut self,
        key: Option<String>,
        autohide: bool,
        duration_ms: u64,
        now_ms: u64,
    ) -> (r: usize)
        requires
            old(self).wf(),
            old(self).next_id_spec() < usize::MAX,
        ensures
            final(self).wf(),
            r == old(self).next_id_spec(),
            final(self).next_id_spec() == old(self).next_id_spec() + 1,
            final(self).max() == old(self).max(),
            final(self).queue() == after_push(
                old(self).queue(),
                old(self).max(),
                pushed_item(r, key_view(key), autohide, duration_ms, now_ms),
            ),
    {
        let ghost old_queue = self.queue();
        let id = self.next_id;
        let mut kept: VecDeque<NotificationItem> = VecDeque::new();
        let mut i: usize = 0;
        let n = self.items.len();
        while i < n
            invariant
                n == self.items@.len(),
                i <= n,
                old_queue == views(self.items@),
                views(kept@) == match key_view(key) {
                    Some(k) => without_key(old_queue.take(i as int), k),
                    None => old_queue.take(i as int),
                },
            decreases n - i,
        {
            let item = &self.items[i];
            let drop = match (&key, &item.key) {
                (Some(k), Some(ik)) => str_equal(k.as_str(), ik.as_str()),
                _ => false,
            };
            proof {
                assert(old_queue.take(i + 1).drop_last() =~= old_queue.take(i as int));
                assert(old_queue.take(i + 1).last() == old_queue[i as int]);
                assert(old_queue[i as int] == self.items@[i as int].view());
            }
            if !drop {
                let copy = item.duplicate();
                let ghost before = kept@;
                kept.push_back(copy);
                assert(views(kept@) =~= views(before).push(copy.view()));
            }
            i += 1;
        }
        assert(old_queue.take(n as int) =~= old_queue);
        let started_at = if autohide {
            Some(now_ms)
        } else {
            None
        };
        let item = NotificationItem {
            id,
            key,
            autohide,
            duration_ms,
            timer_epoch: if autohide {
                1
            } else {
                0
            },
            started_at,
            hovered: false,
        };
        let ghost kept_view = views(kept@);
        kept.push_back(item);
        assert(views(kept@) =~= kept_view.push(item.view()));
        let ghost appended = views(kept@);
        let total = kept.len();
        let mut dropped: usize = 0;
        while kept.len() > self.max_items
            invariant
                self.max_items >= 1,
                appended.len() == total,
                dropped <= appended.len(),
                views(kept@) == appended.subrange(dropped as int, appended.len() as int),
                kept@.len() + dropped == appended.len(),
                appended.len() > self.max_items ==> kept@.len() >= self.max_items,
                appended.len() <= self.max_items ==> dropped == 0,
            decreases kept@.len(),
        {
            let ghost before = kept@;
            let _ = kept.pop_front();
            assert(kept@ =~= before.subrange(1, before.len() as int));
            assert forall|i: int| 0 <= i < kept@.len() implies views(kept@)[i] == appended[dropped
                + 1 + i] by {
                assert(views(kept@)[i] == kept@[i].view());
                assert(kept@[i] == before[i + 1]);
                assert(views(before)[i + 1] == before[i + 1].view());
            }
            assert(views(kept@) =~= appended.subrange(dropped + 1, appended.len() as int));
            dropped += 1;
        }
        proof {
            let m = self.max_items as int;
            if appended.len() > m {
                assert(dropped == appended.len() - m);
            } else {
                assert(dropped == 0);
                assert(appended.subrange(0, appended.len() as int) =~= appended);
            }
            lemma_without_key_keeps_ids(old_queue, key_view(key), id as int);
        }
        self.items = kept;
        self.next_id = id + 1;
        proof {
            let q = self.queue();
            let base = match key_view(key) {
                Some(k) => without_key(old_queue, k),
                None => old_queue,
            };
            assert(q == newest(base.push(item.view()), self.max_items as int));
            lemma_ids_ordered_push(base, item.view(), id as int);
            lemma_ids_ordered_newest(base.push(item.view()), self.max_items as int, id + 1);
        }
        id
    }

    /// Removes the notification `id`.
    pub fn close(&mut self, id: usize)
        requires
            old(self).wf(),
        ensures
            final(self).wf(),
            final(self).queue() == without_id(old(self).queue(), id),
            final(self).max() == old(self).max(),
            final(self).next_id_spec() == old(self).next_id_spec(),
    {
        let ghost old_queue = self.queue();
        let mut kept: VecDeque<NotificationItem> = VecDeque::new();
        let mut i: usize = 0;
        let n = self.items.len();
        while i < n
            invariant
                n == self.items@.len(),
                i <= n,
                old_queue == views(self.items@),
                views(kept@) == without_id(old_queue.take(i as int), id),
            decreases n - i,
        {
            let item = &self.items[i];
            proof {
                assert(old_queue.take(i + 1).drop_last() =~= old_queue.take(i as int));
                assert(old_queue.take(i + 1).last() == old_queue[i as int]);
                assert(old_queue[i as int] == self.items@[i as int].view());
            }
            if item.id != id {
                let copy = item.duplicate();
                let ghost before = kept@;
                kept.push_back(copy);
                assert(views(kept@) =~= views(before).push(copy.view()));
            }
            i += 1;
        }
        assert(old_queue.take(n as int) =~= old_queue);
        proof {
            lemma_without_id_ordered(old_queue, id, self.next_id as int);
        }
        self.items = kept;
    }

    /// Removes every notification.
    pub fn clear(&mut self)
        requires
            old(self).wf(),
        ensures
            final(self).wf(),
            final(self).queue() == Seq::<Pending>::empty(),
            final(self).max() == old(self).max(),
            final(self).next_id_spec() == old(self).next_id_spec(),
    {
        self.items = VecDeque::new();
        assert(self.queue() =~= Seq::<Pending>::empty());
    }

    /// Starts the countdown of notification `id` again at `now_ms`, under a
    /// new epoch; returns its duration and the epoch for the timer to
    /// watch, or nothing when it is gone or does not hide by itself.
    pub fn restart_timer(&mut self, id: usize, now_ms: u64) -> (r: Option<(u64, u64)>)
        requires
            old(self).wf(),
        ensures
            final(self).wf(),
            final(self).max() == old(self).max(),
            final(self).next_id_spec() == old(self).next_id_spec(),
            final(self).queue().len() == old(self).queue().len(),
            match find_id(old(self).queue(), id) {
                Some(i) => if old(self).queue()[i].autohide {
                    let it = old(self).queue()[i];
                    let epoch = (if it.timer_epoch == u64::MAX {
                        0
                    } else {
                        it.timer_epoch + 1
                    }) as u64;
                    &&& r == Some((it.duration_ms, epoch))
                    &&& final(self).queue() == old(self).queue().update(
                        i,
                        Pending { hovered: false, started_at: Some(now_ms), timer_epoch: epoch, ..it },
                    )
                } else {
                    r is None && final(self).queue() == old(self).queue()
                },
                None => r is None && final(self).queue() == old(self).queue(),
            },
    {
        proof {
            lemma_find_id(self.queue(), id);
        }
        let ix = match self.position(id) {
            Some(ix) => ix,
            None => return None,
        };
        if !self.items[ix].autohide {
            return None;
        }
        let ghost old_queue = self.queue();
        let mut item = self.items[ix].duplicate();
        item.hovered = false;
        item.started_at = Some(now_ms);
        item.timer_epoch = item.timer_epoch.wrapping_add(1);
        let r = (item.duration_ms, item.timer_epoch);
        let ghost new_view = item.view();
        let _ = self.items.remove(ix);
        self.items.insert(ix, item);
        proof {
            assert(self.queue() =~= old_queue.update(ix as int, new_view));
            lemma_update_keeps_ids(old_queue, ix as int, new_view, self.next_id as int);
        }
        Some(r)
    }

    /// Pauses the countdown of notification `id` while the pointer is over
    /// it: it shows in full until restarted, and its running timer goes
    /// stale.
    pub fn pause_and_reset_timer(&mut self, id: usize)
        requires
            old(self).wf(),
        ensures
            final(self).wf(),
            final(self).max() == old(self).max(),
            final(self).next_id_spec() == old(self).next_id_spec(),
            match find_id(old(self).queue(), id) {
                Some(i) => if old(self).queue()[i].autohide {
                    let it = old(self).queue()[i];
                    final(self).queue() == old(self).queue().update(
                        i,
                        Pending {
                            hovered: true,
                            started_at: None,
                            timer_epoch: (if it.timer_epoch == u64::MAX {
                                0
                            } else {
                                it.timer_epoch + 1
                            }) as u64,
                            ..it
                        },
                    )
                } else {
                    final(self).queue() == old(self).queue()
                },
                None => final(self).queue() == old(self).queue(),
            },
    {
        proof {
            lemma_find_id(self.queue(), id);
        }
        let ix = match self.position(id) {
            Some(ix) => ix,
            None => {
                return;
            },
        };
        if !self.items[ix].autohide {
            return ;
        }
        let ghost old_queue = self.queue();
        let mut item = self.items[ix].duplicate();
        item.hovered = true;
        item.started_at = None;
        item.timer_epoch = item.timer_epoch.wrapping_add(1);
        let ghost new_view = item.view();
        let _ = self.items.remove(ix);
        self.items.insert(ix, item);
        proof {
            assert(self.queue() =~= old_queue.update(ix as int, new_view));
            lemma_update_keeps_ids(old_queue, ix as int, new_view, self.next_id as int);
        }
    }

    /// How far the countdown of notification `id` has run at `now_ms`;
    /// nothing when it is gone or does not hide by itself.
    pub fn progress(&self, id: usize, now_ms: u64) -> (r: Option<Progress>)
        requires
            self.wf(),
        ensures
            r == match find_id(self.queue(), id) {
                None => None,
                Some(i) => {
                    let it = self.queue()[i];
                    if !it.autohide {
                        None
                    } else if it.hovered || it.started_at is None {
                        Some(Progress::Full)
                    } else if it.duration_ms == 0 {
                        Some(Progress::Empty)
                    } else {
                        Some(
                            Progress::Running {
                                elapsed_ms: (if now_ms >= it.started_at->0 {
                                    now_ms - it.started_at->0
                                } else {
                                    0
                                }) as u64,
                                duration_ms: it.duration_ms,
                            },
                        )
                    }
                },
            },
    {
        proof {
            lemma_find_id(self.queue(), id);
        }
        let ix = match self.position(id) {
            Some(ix) => ix,
            None => return None,
        };
        let item = &self.items[ix];
        if !item.autohide {
            return None;
        }
        match item.started_at {
            None => Some(Progress::Full),
            Some(started) => if item.hovered {
                Some(Progress::Full)
            } else if item.duration_ms == 0 {
                Some(Progress::Empty)
            } else {
                Some(
                    Progress::Running {
                        elapsed_ms: now_ms.saturating_sub(started),
                        duration_ms: item.duration_ms,
                    },
                )
            },
        }
    }

    /// A tick at `now_ms` of the timer started for notification `id` under
    /// `epoch`: it stops when the notification is gone, no longer hides by
    /// itself, was restarted or paused since, or has no start; it closes the
    /// notification once its duration has run out; else it goes on.
    pub fn timer_tick(&mut self, id: usize, epoch: u64, now_ms: u64) -> (r: TimerTick)
        requires
            old(self).wf(),
        ensures
            final(self).wf(),
            final(self).max() == old(self).max(),
            final(self).next_id_spec() == old(self).next_id_spec(),
            match find_id(old(self).queue(), id) {
                None => r == TimerTick::Stop && final(self).queue() == old(self).queue(),
                Some(i) => {
                    let it = old(self).queue()[i];
                    if !it.autohide || it.timer_epoch != epoch || it.started_at is None {
                        r == TimerTick::Stop && final(self).queue() == old(self).queue()
                    } else if now_ms >= it.started_at->0 && now_ms - it.started_at->0
                        >= it.duration_ms {
                        r == TimerTick::Closed && final(self).queue() == without_id(
                            old(self).queue(),
                            id,
                        )
                    } else {
                        r == TimerTick::Continue && final(self).queue() == old(self).queue()
                    }
                },
            },
    {
        proof {
            lemma_find_id(self.queue(), id);
        }
        let ix = match self.position(id) {
            Some(ix) => ix,
            None => return TimerTick::Stop,
        };
        let item = &self.items[ix];
        if !item.autohide || item.timer_epoch != epoch {
            return TimerTick::Stop;
        }
        let started = match item.started_at {
            Some(s) => s,
            None => return TimerTick::Stop,
        };
        if now_ms >= started && now_ms - started >= item.duration_ms {
            self.close(id);
            return TimerTick::Closed;
        }
        TimerTick::Continue
    }
}

/// Index of the notification `id` in `items`.
pub open spec fn find_id(items: Seq<Pending>, id: usize) -> Option<int> {
    if exists|i: int| 0 <= i < items.len() && items[i].id == id {
        Some(choose|i: int| 0 <= i < items.len() && items[i].id == id)
    } else {
        None
    }
}

/// Ids are unique when ordered, so the notification found is the one at
/// any position holding the id.
proof fn lemma_find_id(items: Seq<Pending>, id: usize)
    requires
        forall|i: int, j: int| 0 <= i < j < items.len() ==> items[i].id < items[j].id,
    ensures
        find_id(items, id) matches Some(i) ==> 0 <= i < items.len() && items[i].id == id,
        forall|k: int|
            0 <= k < items.len() && items[k].id == id ==> find_id(items, id) == Some(k),
{
    if exists|i: int| 0 <= i < items.len() && items[i].id == id {
        let w = choose|i: int| 0 <= i < items.len() && items[i].id == id;
        assert forall|k: int| 0 <= k < items.len() && items[k].id == id implies k == w by {
            if k < w {
                assert(items[k].id < items[w].id);
            } else if w < k {
                assert(items[w].id < items[k].id);
            }
        }
    }
}

/// Ids strictly increase along `items` and stay below `bound`.
pub open spec fn ids_below(items: Seq<Pending>, bound: int) -> bool {
    &&& forall|i: int, j: int| 0 <= i < j < items.len() ==> items[i].id < items[j].id
    &&& forall|i: int| 0 <= i < items.len() ==> items[i].id < bound
}

proof fn lemma_without_key_ordered(items: Seq<Pending>, key: Seq<char>, bound: int)
    requires
        ids_below(items, bound),
    ensures
        ids_below(without_key(items, key), bound),
    decreases items.len(),
{
    if items.len() > 0 {
        let prev = items.drop_last();
        let last = items.last();
        assert(ids_below(prev, last.id as int)) by {
            assert forall|i: int| 0 <= i < prev.len() implies prev[i].id < last.id by {
                assert(prev[i] == items[i]);
            }
            assert forall|i: int, j: int| 0 <= i < j < prev.len() implies prev[i].id
                < prev[j].id by {
                assert(prev[i] == items[i] && prev[j] == items[j]);
            }
        }
        lemma_without_key_ordered(prev, key, last.id as int);
    }
}

proof fn lemma_without_id_ordered_below(items: Seq<Pending>, id: usize, bound: int)
    requires
        ids_below(items, bound),
    ensures
        ids_below(without_id(items, id), bound),
    decreases items.len(),
{
    if items.len() > 0 {
        let prev = items.drop_last();
        let last = items.last();
        assert(ids_below(prev, last.id as int)) by {
            assert forall|i: int| 0 <= i < prev.len() implies prev[i].id < last.id by {
                assert(prev[i] == items[i]);
            }
            assert forall|i: int, j: int| 0 <= i < j < prev.len() implies prev[i].id
                < prev[j].id by {
                assert(prev[i] == items[i] && prev[j] == items[j]);
            }
        }
        lemma_without_id_ordered_below(prev, id, last.id as int);
    }
}

proof fn lemma_without_key_keeps_ids(items: Seq<Pending>, key: Option<Seq<char>>, next: int)
    requires
        ids_ordered(items, next),
    ensures
        match key {
            Some(k) => ids_ordered(without_key(items, k), next),
            None => ids_ordered(items, next),
        },
{
    if let Some(k) = key {
        lemma_without_key_ordered(items, k, next);
    }
}

proof fn lemma_without_id_ordered(items: Seq<Pending>, id: usize, next: int)
    requires
        ids_ordered(items, next),
    ensures
        ids_ordered(without_id(items, id), next),
{
    lemma_without_id_ordered_below(items, id, next);
}

proof fn lemma_ids_ordered_push(items: Seq<Pending>, item: Pending, next: int)
    requires
        ids_ordered(items, next),
        item.id == next,
    ensures
        ids_ordered(items.push(item), next + 1),
{
    let s = items.push(item);
    assert forall|i: int, j: int| 0 <= i < j < s.len() implies s[i].id < s[j].id by {
        if j == s.len() - 1 {
            assert(s[i] == items[i]);
        } else {
            assert(s[i] == items[i] && s[j] == items[j]);
        }
    }
    assert forall|i: int| 0 <= i < s.len() implies s[i].id < next + 1 by {
        if i < items.len() {
            assert(s[i] == items[i]);
        }
    }
}

proof fn lemma_ids_ordered_newest(items: Seq<Pending>, max: int, next: int)
    requires
        ids_ordered(items, next),
        max >= 1,
    ensures
        ids_ordered(newest(items, max), next),
{
    let out = newest(items, max);
    if items.len() > max {
        let off = items.len() - max;
        assert forall|i: int, j: int| 0 <= i < j < out.len() implies out[i].id < out[j].id by {
            assert(out[i] == items[i + off] && out[j] == items[j + off]);
        }
        assert forall|i: int| 0 <= i < out.len() implies out[i].id < next by {
            assert(out[i] == items[i + off]);
        }
    }
}

proof fn lemma_update_keeps_ids(items: Seq<Pending>, ix: int, item: Pending, next: int)
    requires
        ids_ordered(items, next),
        0 <= ix < items.len(),
        item.id == items[ix].id,
    ensures
        ids_ordered(items.update(ix, item), next),
{
    let s = items.update(ix, item);
    assert forall|i: int, j: int| 0 <= i < j < s.len() implies s[i].id < s[j].id by {
        assert(s[i].id == items[i].id && s[j].id == items[j].id);
    }
    assert forall|i: int| 0 <= i < s.len() implies s[i].id < next by {
        assert(s[i].id == items[i].id);
    }
}

proof fn lemma_without_key_drops_key(items: Seq<Pending>, key: Seq<char>)
    ensures
        forall|i: int|
            0 <= i < without_key(items, key).len() ==> (#[trigger] without_key(items, key)[i]).key
                != Some(key),
    decreases items.len(),
{
    if items.len() > 0 {
        lemma_without_key_drops_key(items.drop_last(), key);
    }
}

proof fn lemma_without_id_drops_id(items: Seq<Pending>, id: usize)
    ensures
        forall|i: int|
            0 <= i < without_id(items, id).len() ==> (#[trigger] without_id(items, id)[i]).id != id,
    decreases items.len(),
{
    if items.len() > 0 {
        lemma_without_id_drops_id(items.drop_last(), id);
    }
}

/// A push keeps at most `max` notifications, always keeps the new one as
/// the newest, and leaves no other pending notification with its key.
pub proof fn law_push_replaces_key_and_bounds_queue(items: Seq<Pending>, max: int, item: Pending)
    requires
        max >= 1,
    ensures
        after_push(items, max, item).len() <= max,
        after_push(items, max, item).len() >= 1,
        after_push(items, max, item).last() == item,
        item.key matches Some(k) ==> forall|i: int|
            0 <= i < after_push(items, max, item).len() - 1 ==> (#[trigger] after_push(
                items,
                max,
                item,
            )[i]).key != Some(k),
{
    let kept = match item.key {
        Some(k) => without_key(items, k),
        None => items,
    };
    let appended = kept.push(item);
    let out = after_push(items, max, item);
    if let Some(k) = item.key {
        lemma_without_key_drops_key(items, k);
        assert forall|i: int| 0 <= i < out.len() - 1 implies (#[trigger] out[i]).key != Some(k) by {
            if appended.len() > max {
                let off = appended.len() - max;
                assert(out[i] == appended[i + off]);
                assert(appended[i + off] == kept[i + off]);
            } else {
                assert(out[i] == kept[i]);
            }
        }
    }
}

/// Once closed, no pending notification has the closed id.
pub proof fn law_close_removes_id(items: Seq<Pending>, id: usize)
    ensures
        forall|i: int| 0 <= i < without_id(items, id).len() ==> (#[trigger] without_id(items, id)[i]).id != id,
{
    lemma_without_id_drops_id(items, id);
}

} // verus!
