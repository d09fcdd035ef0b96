//! The downloads the application knows of: a table from video id to task,
//! and the order in which they were added.
use vstd::prelude::*;
use crate::model::{Video, DownloadTask, DownloadStatus, copy_status};
use crate::text::str_eq;
use crate::yt::texts;

verus! {

broadcast use vstd::string::group_string_axioms;

/// No two tasks share an id.
pub open spec fn ids_unique(s: Seq<DownloadTask>) -> bool {
    forall|i: int, j: int| 0 <= i < j < s.len() ==> #[trigger] s[i].id@ != #[trigger] s[j].id@
}

/// Some task of `s` has the id `k`.
pub open spec fn has_id(s: Seq<DownloadTask>, k: Seq<char>) -> bool {
    exists|i: int| 0 <= i < s.len() && #[trigger] s[i].id@ == k
}

/// The tasks of `s` as a table from id to task.
pub open spec fn task_map(s: Seq<DownloadTask>) -> Map<Seq<char>, DownloadTask> {
    Map::new(
        |k: Seq<char>| has_id(s, k),
        |k: Seq<char>| s[choose|i: int| 0 <= i < s.len() && #[trigger] s[i].id@ == k],
    )
}

/// `order` without the entries equal to `id`.
pub open spec fn without(order: Seq<Seq<char>>, id: Seq<char>) -> Seq<Seq<char>>
    decreases order.len(),
{
    if order.len() == 0 {
        order
    } else if order.last() == id {
        without(order.drop_last(), id)
    } else {
        without(order.drop_last(), id).push(order.last())
    }
}

/// A task just created for `video` in `format_id`: pending, with nothing
/// downloaded.
pub open spec fn fresh_task(t: DownloadTask, video: Video, format_id: Seq<char>) -> bool {
    &&& t.id == video.id
    &&& t.title == video.title
    &&& t.video == video
    &&& t.format_id@ == format_id
    &&& t.status == DownloadStatus::Pending
    &&& t.progress_bits == 0
    &&& t.speed@.len() == 0 && t.eta@.len() == 0 && t.total_size@.len() == 0
    &&& t.pid is None
    &&& t.info_json_path is None
}

proof fn lemma_map_at(s: Seq<DownloadTask>, i: int)
    requires
        ids_unique(s),
        0 <= i < s.len(),
    ensures
        task_map(s).dom().contains(s[i].id@),
        task_map(s)[s[i].id@] == s[i],
{
    let k = s[i].id@;
    assert(has_id(s, k));
    let j = choose|j: int| 0 <= j < s.len() && #[trigger] s[j].id@ == k;
    if j < i {
        assert(s[j].id@ != s[i].id@);
    } else if j > i {
        assert(s[i].id@ != s[j].id@);
    }
}

proof fn lemma_map_update(s: Seq<DownloadTask>, i: int, t: DownloadTask)
    requires
        ids_unique(s),
        0 <= i < s.len(),
        t.id@ == s[i].id@,
    ensures
        ids_unique(s.update(i, t)),
        task_map(s.update(i, t)) == task_map(s).insert(s[i].id@, t),
{
    let s2 = s.update(i, t);
    assert forall|a: int, b: int| 0 <= a < b < s2.len() implies #[trigger] s2[a].id@ != #[trigger] s2[b].id@ by {
        assert(s2[a].id@ == s[a].id@);
        assert(s2[b].id@ == s[b].id@);
    }
    let m = task_map(s).insert(s[i].id@, t);
    assert forall|k: Seq<char>| #[trigger] task_map(s2).dom().contains(k) <==> m.dom().contains(k) by {
        if has_id(s2, k) {
            let j = choose|j: int| 0 <= j < s2.len() && #[trigger] s2[j].id@ == k;
            assert(s[j].id@ == k);
        }
        if has_id(s, k) {
            let j = choose|j: int| 0 <= j < s.len() && #[trigger] s[j].id@ == k;
            assert(s2[j].id@ == k);
        }
    }
    assert forall|k: Seq<char>| #[trigger] task_map(s2).dom().contains(k) implies task_map(s2)[k] == m[k] by {
        let j = choose|j: int| 0 <= j < s2.len() && #[trigger] s2[j].id@ == k;
        lemma_map_at(s2, j);
        if j == i {
        } else {
            assert(s[j].id@ == k);
            lemma_map_at(s, j);
        }
    }
    assert(task_map(s2) =~= m);
}

proof fn lemma_map_push(s: Seq<DownloadTask>, t: DownloadTask)
    requires
        ids_unique(s),
        !has_id(s, t.id@),
    ensures
        ids_unique(s.push(t)),
        task_map(s.push(t)) == task_map(s).insert(t.id@, t),
{
    let s2 = s.push(t);
    assert forall|a: int, b: int| 0 <= a < b < s2.len() implies #[trigger] s2[a].id@ != #[trigger] s2[b].id@ by {
        if b == s.len() {
            assert(s2[a] == s[a]);
        }
    }
    let m = task_map(s).insert(t.id@, t);
    assert forall|k: Seq<char>| #[trigger] task_map(s2).dom().contains(k) <==> m.dom().contains(k) by {
        if has_id(s2, k) {
            let j = choose|j: int| 0 <= j < s2.len() && #[trigger] s2[j].id@ == k;
            if j < s.len() {
                assert(s[j].id@ == k);
            }
        }
        if has_id(s, k) {
            let j = choose|j: int| 0 <= j < s.len() && #[trigger] s[j].id@ == k;
            assert(s2[j].id@ == k);
        }
        if k == t.id@ {
            assert(s2[s.len() as int].id@ == k);
        }
    }
    assert forall|k: Seq<char>| #[trigger] task_map(s2).dom().contains(k) implies task_map(s2)[k] == m[k] by {
        let j = choose|j: int| 0 <= j < s2.len() && #[trigger] s2[j].id@ == k;
        lemma_map_at(s2, j);
        if j < s.len() {
            assert(s[j].id@ == k);
            lemma_map_at(s, j);
        }
    }
    assert(task_map(s2) =~= m);
}

proof fn lemma_map_remove(s: Seq<DownloadTask>, i: int)
    requires
        ids_unique(s),
        0 <= i < s.len(),
    ensures
        ids_unique(s.remove(i)),
        task_map(s.remove(i)) == task_map(s).remove(s[i].id@),
{
    let s2 = s.remove(i);
    let key = s[i].id@;
    assert forall|a: int, b: int| 0 <= a < b < s2.len() implies #[trigger] s2[a].id@ != #[trigger] s2[b].id@ by {
        let a0 = if a < i { a } else { a + 1 };
        let b0 = if b < i { b } else { b + 1 };
        assert(s2[a] == s[a0]);
        assert(s2[b] == s[b0]);
    }
    let m = task_map(s).remove(key);
    assert forall|k: Seq<char>| #[trigger] task_map(s2).dom().contains(k) <==> m.dom().contains(k) by {
        if has_id(s2, k) {
            let j = choose|j: int| 0 <= j < s2.len() && #[trigger] s2[j].id@ == k;
            let j0 = if j < i { j } else { j + 1 };
            assert(s[j0].id@ == k);
            assert(j0 != i);
        }
        if has_id(s, k) && k != key {
            let j = choose|j: int| 0 <= j < s.len() && #[trigger] s[j].id@ == k;
            assert(j != i);
            let j2 = if j < i { j } else { j - 1 };
            assert(s2[j2].id@ == k);
        }
    }
    assert forall|k: Seq<char>| #[trigger] task_map(s2).dom().contains(k) implies task_map(s2)[k] == m[k] by {
        let j = choose|j: int| 0 <= j < s2.len() && #[trigger] s2[j].id@ == k;
        lemma_map_at(s2, j);
        let j0 = if j < i { j } else { j + 1 };
        assert(s2[j] == s[j0]);
        lemma_map_at(s, j0);
    }
    assert(task_map(s2) =~= m);
}

/// The ids of the order are exactly the ids of the tasks.
pub open spec fn order_lists(tasks: Seq<DownloadTask>, order: Seq<String>) -> bool {
    forall|k: Seq<char>| #![trigger has_id(tasks, k)] #![trigger texts(order).contains(k)]
        has_id(tasks, k) <==> texts(order).contains(k)
}

/// The order lists exactly the downloads of the table (an id may be listed
/// more than once).
pub open spec fn lists_tasks(v: (Map<Seq<char>, DownloadTask>, Seq<Seq<char>>)) -> bool {
    forall|k: Seq<char>| #![trigger v.0.dom().contains(k)] #![trigger v.1.contains(k)]
        v.0.dom().contains(k) <==> v.1.contains(k)
}

proof fn lemma_update_ids(s: Seq<DownloadTask>, i: int, t: DownloadTask, k: Seq<char>)
    requires
        0 <= i < s.len(),
        t.id@ == s[i].id@,
    ensures
        has_id(s.update(i, t), k) <==> has_id(s, k),
{
    if has_id(s, k) {
        let j = choose|j: int| 0 <= j < s.len() && #[trigger] s[j].id@ == k;
        assert(s.update(i, t)[j].id@ == k);
    }
    if has_id(s.update(i, t), k) {
        let j = choose|j: int| 0 <= j < s.len() && #[trigger] s.update(i, t)[j].id@ == k;
        assert(s[j].id@ == k);
    }
}

proof fn lemma_push_ids(s: Seq<DownloadTask>, t: DownloadTask, k: Seq<char>)
    ensures
        has_id(s.push(t), k) <==> (has_id(s, k) || t.id@ == k),
{
    if has_id(s, k) {
        let j = choose|j: int| 0 <= j < s.len() && #[trigger] s[j].id@ == k;
        assert(s.push(t)[j].id@ == k);
    }
    if t.id@ == k {
        assert(s.push(t)[s.len() as int].id@ == k);
    }
    if has_id(s.push(t), k) {
        let j = choose|j: int| 0 <= j < s.len() + 1 && #[trigger] s.push(t)[j].id@ == k;
        if j < s.len() {
            assert(s[j].id@ == k);
        }
    }
}

proof fn lemma_remove_ids(s: Seq<DownloadTask>, i: int, k: Seq<char>)
    requires
        ids_unique(s),
        0 <= i < s.len(),
    ensures
        has_id(s.remove(i), k) <==> (has_id(s, k) && k != s[i].id@),
{
    let s2 = s.remove(i);
    if has_id(s2, k) {
        let j = choose|j: int| 0 <= j < s2.len() && #[trigger] s2[j].id@ == k;
        let j0 = if j < i { j } else { j + 1 };
        assert(s[j0].id@ == k);
        assert(j0 != i);
        if j0 < i {
            assert(s[j0].id@ != s[i].id@);
        } else {
            assert(s[i].id@ != s[j0].id@);
        }
    }
    if has_id(s, k) && k != s[i].id@ {
        let j = choose|j: int| 0 <= j < s.len() && #[trigger] s[j].id@ == k;
        let j2 = if j < i { j } else { j - 1 };
        assert(s2[j2].id@ == k);
    }
}

proof fn lemma_texts_push(o: Seq<String>, x: String, k: Seq<char>)
    ensures
        texts(o.push(x)).contains(k) <==> (texts(o).contains(k) || x@ == k),
{
    assert(texts(o.push(x)) =~= texts(o).push(x@));
    let w = texts(o);
    if w.contains(k) {
        let j = choose|j: int| 0 <= j < w.len() && w[j] == k;
        assert(w.push(x@)[j] == k);
    }
    if x@ == k {
        assert(w.push(x@)[w.len() as int] == k);
    }
    if w.push(x@).contains(k) {
        let j = choose|j: int| 0 <= j < w.len() + 1 && w.push(x@)[j] == k;
        if j < w.len() {
            assert(w[j] == k);
        }
    }
}

proof fn lemma_without_contains(o: Seq<Seq<char>>, id: Seq<char>, k: Seq<char>)
    ensures
        without(o, id).contains(k) <==> (o.contains(k) && k != id),
    decreases o.len(),
{
    if o.len() > 0 {
        let u = o.drop_last();
        lemma_without_contains(u, id, k);
        let w = without(u, id);
        if o.contains(k) && k != id {
            let j = choose|j: int| 0 <= j < o.len() && o[j] == k;
            if j < u.len() {
                assert(u[j] == k);
            }
        }
        if u.contains(k) {
            let j = choose|j: int| 0 <= j < u.len() && u[j] == k;
            assert(o[j] == k);
        }
        if o.last() != id {
            if w.push(o.last()).contains(k) {
                let j = choose|j: int| 0 <= j < w.len() + 1 && w.push(o.last())[j] == k;
                if j < w.len() {
                    assert(w[j] == k);
                } else {
                    assert(o[o.len() - 1] == k);
                }
            }
            if k == o.last() && k != id {
                assert(w.push(o.last())[w.len() as int] == k);
            } else if w.contains(k) {
                let j = choose|j: int| 0 <= j < w.len() && w[j] == k;
                assert(w.push(o.last())[j] == k);
            }
        }
    }
}

proof fn lemma_lists(tasks: Seq<DownloadTask>, order: Seq<String>)
    requires
        order_lists(tasks, order),
    ensures
        lists_tasks((task_map(tasks), texts(order))),
{
    assert forall|k: Seq<char>| #[trigger] task_map(tasks).dom().contains(k) <==> texts(order).contains(k) by {
        assert(has_id(tasks, k) <==> texts(order).contains(k));
    }
}

/// The downloads: each video id with its task, and the ids in the order
/// the downloads were added (an id added twice appears twice).
pub struct DownloadManager {
    tasks: Vec<DownloadTask>,
    task_order: Vec<String>,
}

impl View for DownloadManager {
    type V = (Map<Seq<char>, DownloadTask>, Seq<Seq<char>>);

    closed spec fn view(&self) -> (Map<Seq<char>, DownloadTask>, Seq<Seq<char>>) {
        (task_map(self.tasks@), texts(self.task_order@))
    }
}

impl DownloadManager {
    #[verifier::type_invariant]
    closed spec fn wf(self) -> bool {
        &&& ids_unique(self.tasks@)
        &&& order_lists(self.tasks@, self.task_order@)
    }

    /// Empties the manager and hands its tasks and its order out.
    fn take_parts(&mut self) -> (r: (Vec<DownloadTask>, Vec<String>))
        ensures
            r.0@ == old(self).tasks@,
            r.1@ == old(self).task_order@,
            ids_unique(r.0@),
            order_lists(r.0@, r.1@),
    {
        proof {
            use_type_invariant(&*self);
        }
        let mut m = DownloadManager::new();
        std::mem::swap(&mut m, self);
        let DownloadManager { tasks, task_order } = m;
        (tasks, task_order)
    }

    /// No downloads.
    pub fn new() -> (m: DownloadManager)
        ensures
            m@.0 == Map::<Seq<char>, DownloadTask>::empty(),
            m@.1 == Seq::<Seq<char>>::empty(),
            lists_tasks(m@),
    {
        let tasks: Vec<DownloadTask> = Vec::new();
        let task_order: Vec<String> = Vec::new();
        assert(texts(task_order@) =~= Seq::<Seq<char>>::empty());
        let m = DownloadManager { tasks, task_order };
        proof {
            lemma_lists(m.tasks@, m.task_order@);
        }
        assert(task_map(m.tasks@) =~= Map::<Seq<char>, DownloadTask>::empty());
        assert(texts(m.task_order@) =~= Seq::<Seq<char>>::empty());
        m
    }

    /// Where the task with id `id` is stored.
    fn index_of(&self, id: &str) -> (r: Option<usize>)
        ensures
            match r {
                Some(i) => i < self.tasks@.len() && self.tasks@[i as int].id@ == id@,
                None => !has_id(self.tasks@, id@),
            },
    {
        let mut i: usize = 0;
        while i < self.tasks.len()
            invariant
                i <= self.tasks@.len(),
                forall|j: int| 0 <= j < i ==> self.tasks@[j].id@ != id@,
            decreases self.tasks.len() - i,
        {
            if str_eq(self.tasks[i].id.as_str(), id) {
                return Some(i);
            }
            i = i + 1;
        }
        None
    }

    /// The number of entries of the order.
    pub fn len(&self) -> (n: usize)
        ensures
            n == self@.1.len(),
    {
        self.task_order.len()
    }

    /// Whether there are no downloads in the order.
    pub fn is_empty(&self) -> (b: bool)
        ensures
            b == (self@.1.len() == 0),
    {
        self.task_order.len() == 0
    }

    /// The id at position `i` of the order.
    pub fn id_at(&self, i: usize) -> (r: Option<&String>)
        ensures
            match r {
                Some(s) => i < self@.1.len() && s@ == self@.1[i as int],
                None => i >= self@.1.len(),
            },
    {
        if i < self.task_order.len() {
            Some(&self.task_order[i])
        } else {
            None
        }
    }

    /// Whether a download of the video `id` is known.
    pub fn contains(&self, id: &str) -> (b: bool)
        ensures
            b == self@.0.dom().contains(id@),
    {
        proof {
            use_type_invariant(self);
        }
        self.index_of(id).is_some()
    }

    /// The task of the video `id`.
    pub fn get(&self, id: &str) -> (r: Option<&DownloadTask>)
        ensures
            match r {
                Some(t) => self@.0.dom().contains(id@) && *t == self@.0[id@],
                None => !self@.0.dom().contains(id@),
            },
    {
        proof {
            use_type_invariant(self);
        }
        match self.index_of(id) {
            Some(i) => {
                proof {
                    lemma_map_at(self.tasks@, i as int);
                }
                Some(&self.tasks[i])
            },
            None => None,
        }
    }

    /// Replaces the stored task of `id` by `t`.
    fn replace_at(&mut self, i: usize, t: DownloadTask)
        requires
            i < old(self).tasks@.len(),
            t.id@ == old(self).tasks@[i as int].id@,
        ensures
            final(self)@.0 == old(self)@.0.insert(old(self).tasks@[i as int].id@, t),
            final(self)@.1 == old(self)@.1,
    {
        proof {
            use_type_invariant(&*self);
            lemma_map_update(self.tasks@, i as int, t);
        }
        let (mut tasks, task_order) = self.take_parts();
        let ghost before = tasks@;
        tasks.set(i, t);
        proof {
            assert forall|k: Seq<char>| #[trigger] has_id(tasks@, k) <==> texts(task_order@).contains(k) by {
                lemma_update_ids(before, i as int, t, k);
            }
        }
        *self = DownloadManager { tasks, task_order };
    }

    /// Adds a pending download of `video` in `format_id`: the task replaces
    /// any earlier one of the same video, and the id is appended to the order.
    pub fn add_task(&mut self, video: &Video, format_id: &str)
        ensures
            lists_tasks(final(self)@),
            final(self)@.0.dom().contains(video.id@),
            final(self)@.0 == old(self)@.0.insert(video.id@, final(self)@.0[video.id@]),
            fresh_task(final(self)@.0[video.id@], *video, format_id@),
            final(self)@.1 == old(self)@.1.push(video.id@),
    {
        proof {
            use_type_invariant(&*self);
        }
        let t = DownloadTask::new(video.duplicate(), String::from_str(format_id));
        let ghost tv = t;
        match self.index_of(video.id.as_str()) {
            Some(i) => {
                self.replace_at(i, t);
            },
            None => {
                proof {
                    lemma_map_push(self.tasks@, t);
                }
                let (mut tasks, mut task_order) = self.take_parts();
                let ghost (t0, o0) = (tasks@, task_order@);
                tasks.push(t);
                task_order.push(video.id.clone());
                proof {
                    assert forall|k: Seq<char>| #[trigger] has_id(tasks@, k) <==> texts(task_order@).contains(k) by {
                        lemma_push_ids(t0, tv, k);
                        lemma_texts_push(o0, video.id, k);
                        assert(has_id(t0, k) <==> texts(o0).contains(k));
                    }
                    assert(texts(task_order@) =~= texts(o0).push(video.id@));
                }
                *self = DownloadManager { tasks, task_order };
                assert(self@.0[video.id@] == tv);
                proof {
                    use_type_invariant(&*self);
                    lemma_lists(self.tasks@, self.task_order@);
                }
                return;
            },
        }
        proof {
            use_type_invariant(&*self);
        }
        let (tasks, mut task_order) = self.take_parts();
        let ghost o0 = task_order@;
        task_order.push(video.id.clone());
        proof {
            assert(has_id(tasks@, video.id@)) by {
                assert(task_map(tasks@).dom().contains(video.id@));
            }
            assert forall|k: Seq<char>| #[trigger] has_id(tasks@, k) <==> texts(task_order@).contains(k) by {
                lemma_texts_push(o0, video.id, k);
                assert(has_id(tasks@, k) <==> texts(o0).contains(k));
            }
            assert(texts(task_order@) =~= texts(o0).push(video.id@));
        }
        *self = DownloadManager { tasks, task_order };
        assert(self@.0[video.id@] == tv);
        proof {
            use_type_invariant(&*self);
            lemma_lists(self.tasks@, self.task_order@);
        }
    }

    /// Adds a task found on disk under its own id, appended to the order;
    /// nothing changes when a task of that id is already known.
    pub fn restore_task(&mut self, task: DownloadTask)
        ensures
            lists_tasks(final(self)@),
            old(self)@.0.dom().contains(task.id@) ==> final(self)@ == old(self)@,
            !old(self)@.0.dom().contains(task.id@) ==> final(self)@.0 == old(self)@.0.insert(
                task.id@,
                task,
            ) && final(self)@.1 == old(self)@.1.push(task.id@),
    {
        proof {
            use_type_invariant(&*self);
        }
        if self.index_of(task.id.as_str()).is_some() {
            proof {
                use_type_invariant(&*self);
                lemma_lists(self.tasks@, self.task_order@);
            }
            return;
        }
        let id = task.id.clone();
        proof {
            lemma_map_push(self.tasks@, task);
        }
        let ghost tv = task;
        let (mut tasks, mut task_order) = self.take_parts();
        let ghost (t0, o0) = (tasks@, task_order@);
        tasks.push(task);
        task_order.push(id);
        proof {
            assert forall|k: Seq<char>| #[trigger] has_id(tasks@, k) <==> texts(task_order@).contains(k) by {
                lemma_push_ids(t0, tv, k);
                lemma_texts_push(o0, id, k);
                assert(has_id(t0, k) <==> texts(o0).contains(k));
            }
            assert(texts(task_order@) =~= texts(o0).push(id@));
        }
        *self = DownloadManager { tasks, task_order };
        proof {
            use_type_invariant(&*self);
            lemma_lists(self.tasks@, self.task_order@);
        }
    }

    /// Sets the state of the download `id`, if it is known.
    pub fn set_status(&mut self, id: &str, status: DownloadStatus)
        ensures
            lists_tasks(final(self)@),
            !old(self)@.0.dom().contains(id@) ==> final(self)@ == old(self)@,
            old(self)@.0.dom().contains(id@) ==> final(self)@.0 == old(self)@.0.insert(
                id@,
                DownloadTask { status, ..old(self)@.0[id@] },
            ) && final(self)@.1 == old(self)@.1,
    {
        proof {
            use_type_invariant(&*self);
        }
        if let Some(i) = self.index_of(id) {
            proof {
                lemma_map_at(self.tasks@, i as int);
            }
            let old_t = &self.tasks[i];
            let t = DownloadTask {
                id: old_t.id.clone(),
                title: old_t.title.clone(),
                video: old_t.video.duplicate(),
                format_id: old_t.format_id.clone(),
                status,
                progress_bits: old_t.progress_bits,
                speed: old_t.speed.clone(),
                eta: old_t.eta.clone(),
                total_size: old_t.total_size.clone(),
                pid: old_t.pid,
                info_json_path: crate::model::copy_opt(&old_t.info_json_path),
            };
            self.replace_at(i, t);
        }
        proof {
            use_type_invariant(&*self);
            lemma_lists(self.tasks@, self.task_order@);
        }
    }

    /// Records a progress report of the download `id`: it is downloading,
    /// with this much done, at this speed, with this time left and size.
    pub fn update_progress(&mut self, id: &str, progress_bits: u64, speed: String, eta: String, total_size: String)
        ensures
            lists_tasks(final(self)@),
            !old(self)@.0.dom().contains(id@) ==> final(self)@ == old(self)@,
            old(self)@.0.dom().contains(id@) ==> final(self)@.0 == old(self)@.0.insert(
                id@,
                DownloadTask {
                    status: DownloadStatus::Downloading,
                    progress_bits,
                    speed,
                    eta,
                    total_size,
                    ..old(self)@.0[id@]
                },
            ) && final(self)@.1 == old(self)@.1,
    {
        proof {
            use_type_invariant(&*self);
        }
        if let Some(i) = self.index_of(id) {
            proof {
                lemma_map_at(self.tasks@, i as int);
            }
            let old_t = &self.tasks[i];
            let t = DownloadTask {
                id: old_t.id.clone(),
                title: old_t.title.clone(),
                video: old_t.video.duplicate(),
                format_id: old_t.format_id.clone(),
                status: DownloadStatus::Downloading,
                progress_bits,
                speed,
                eta,
                total_size,
                pid: old_t.pid,
                info_json_path: crate::model::copy_opt(&old_t.info_json_path),
            };
            self.replace_at(i, t);
        }
        proof {
            use_type_invariant(&*self);
            lemma_lists(self.tasks@, self.task_order@);
        }
    }

    /// Records the process id of the download `id`.
    pub fn set_pid(&mut self, id: &str, pid: u32)
        ensures
            lists_tasks(final(self)@),
            !old(self)@.0.dom().contains(id@) ==> final(self)@ == old(self)@,
            old(self)@.0.dom().contains(id@) ==> final(self)@.0 == old(self)@.0.insert(
                id@,
                DownloadTask { pid: Some(pid), ..old(self)@.0[id@] },
            ) && final(self)@.1 == old(self)@.1,
    {
        proof {
            use_type_invariant(&*self);
        }
        if let Some(i) = self.index_of(id) {
            proof {
                lemma_map_at(self.tasks@, i as int);
            }
            let old_t = &self.tasks[i];
            let t = DownloadTask {
                id: old_t.id.clone(),
                title: old_t.title.clone(),
                video: old_t.video.duplicate(),
                format_id: old_t.format_id.clone(),
                status: copy_status(&old_t.status),
                progress_bits: old_t.progress_bits,
                speed: old_t.speed.clone(),
                eta: old_t.eta.clone(),
                total_size: old_t.total_size.clone(),
                pid: Some(pid),
                info_json_path: crate::model::copy_opt(&old_t.info_json_path),
            };
            self.replace_at(i, t);
        }
        proof {
            use_type_invariant(&*self);
            lemma_lists(self.tasks@, self.task_order@);
        }
    }

    /// Marks the download `id` canceled, with no speed or time left shown.
    pub fn mark_canceled(&mut self, id: &str)
        ensures
            lists_tasks(final(self)@),
            !old(self)@.0.dom().contains(id@) ==> final(self)@ == old(self)@,
            old(self)@.0.dom().contains(id@) ==> final(self)@.1 == old(self)@.1
                && final(self)@.0.dom() == old(self)@.0.dom().insert(id@) && final(self)@.0.remove(id@)
                == old(self)@.0.remove(id@) && ({
                let t = final(self)@.0[id@];
                let o = old(self)@.0[id@];
                &&& t.status == DownloadStatus::Canceled
                &&& t.speed@.len() == 0
                &&& t.eta@.len() == 0
                &&& t.id == o.id && t.title == o.title && t.video == o.video
                &&& t.format_id == o.format_id && t.progress_bits == o.progress_bits
                &&& t.total_size == o.total_size && t.pid == o.pid
                &&& t.info_json_path == o.info_json_path
            }),
    {
        proof {
            use_type_invariant(&*self);
        }
        if let Some(i) = self.index_of(id) {
            proof {
                lemma_map_at(self.tasks@, i as int);
            }
            let old_t = &self.tasks[i];
            let t = DownloadTask {
                id: old_t.id.clone(),
                title: old_t.title.clone(),
                video: old_t.video.duplicate(),
                format_id: old_t.format_id.clone(),
                status: DownloadStatus::Canceled,
                progress_bits: old_t.progress_bits,
                speed: String::new(),
                eta: String::new(),
                total_size: old_t.total_size.clone(),
                pid: old_t.pid,
                info_json_path: crate::model::copy_opt(&old_t.info_json_path),
            };
            let ghost tv = t;
            self.replace_at(i, t);
            assert(self@.0.remove(id@) =~= old(self)@.0.remove(id@));
            assert(self@.0.dom() =~= old(self)@.0.dom().insert(id@));
        }
        proof {
            use_type_invariant(&*self);
            lemma_lists(self.tasks@, self.task_order@);
        }
    }

    /// Forgets the download `id`: its task, and every entry of it in the order.
    pub fn remove(&mut self, id: &str)
        ensures
            lists_tasks(final(self)@),
            final(self)@.0 == old(self)@.0.remove(id@),
            final(self)@.1 == without(old(self)@.1, id@),
    {
        proof {
            use_type_invariant(&*self);
        }
        let found = self.index_of(id);
        let (mut tasks, task_order) = self.take_parts();
        let ghost t0 = tasks@;
        match found {
            Some(i) => {
                proof {
                    lemma_map_remove(tasks@, i as int);
                }
                tasks.remove(i);
                proof {
                    assert forall|k: Seq<char>| has_id(tasks@, k) <==> (has_id(t0, k) && k != id@) by {
                        lemma_remove_ids(t0, i as int, k);
                    }
                }
            },
            None => {
                assert(task_map(tasks@).remove(id@) =~= task_map(tasks@));
            },
        }
        let mut kept: Vec<String> = Vec::new();
        let mut k: usize = 0;
        while k < task_order.len()
            invariant
                k <= task_order@.len(),
                texts(kept@) == without(texts(task_order@).take(k as int), id@),
            decreases task_order.len() - k,
        {
            let ghost before = texts(kept@);
            let ghost ord = texts(task_order@);
            assert(ord.take(k + 1).drop_last() =~= ord.take(k as int));
            assert(ord[k as int] == task_order@[k as int]@);
            if !str_eq(task_order[k].as_str(), id) {
                kept.push(task_order[k].clone());
                assert(texts(kept@) =~= before.push(task_order@[k as int]@));
            }
            k = k + 1;
        }
        assert(texts(task_order@).take(task_order@.len() as int) =~= texts(task_order@));
        proof {
            assert forall|x: Seq<char>| #[trigger] has_id(tasks@, x) <==> texts(kept@).contains(x) by {
                lemma_without_contains(texts(task_order@), id@, x);
                assert(has_id(t0, x) <==> texts(task_order@).contains(x));
                if found is Some {
                    assert(has_id(tasks@, x) <==> (has_id(t0, x) && x != id@));
                } else {
                    assert(!has_id(t0, id@));
                }
            }
        }
        *self = DownloadManager { tasks, task_order: kept };
        proof {
            use_type_invariant(&*self);
            lemma_lists(self.tasks@, self.task_order@);
        }
    }
}

} // verus!
