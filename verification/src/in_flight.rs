//! The tasks that the process knows to be under way.
use vstd::prelude::*;

verus! {

/// What is remembered of a task while it is under way.
#[derive(Debug, Clone)]
pub struct InFlightInfo {
    /// The tool that the task calls.
    pub tool: String,
    /// Since when it is under way, in milliseconds since the epoch.
    pub started_at_ms: u64,
    /// Whether a worker is running the tool; until one does, the task is queued.
    pub running: bool,
}

/// The contents of an [`InFlightInfo`].
pub struct InFlightInfoView {
    /// The tool that the task calls.
    pub tool: Seq<char>,
    /// Since when it is under way.
    pub started_at_ms: u64,
    /// Whether a worker is running the tool.
    pub running: bool,
}

impl InFlightInfoView {
    /// What a client is told of the task.
    pub open spec fn message(self) -> Seq<char> {
        if self.running {
            "running"@
        } else {
            "queued"@
        }
    }
}

impl View for InFlightInfo {
    type V = InFlightInfoView;

    open spec fn view(&self) -> InFlightInfoView {
        InFlightInfoView {
            tool: self.tool@,
            started_at_ms: self.started_at_ms,
            running: self.running,
        }
    }
}

impl InFlightInfo {
    /// What a client is told of the task.
    pub fn message(&self) -> (message: &'static str)
        ensures
            message@ == self@.message(),
    {
        if self.running {
            "running"
        } else {
            "queued"
        }
    }
}

/// Whether a worker is known to run a task.
pub open spec fn is_running(tasks: Map<Seq<char>, InFlightInfoView>, task_id: Seq<char>) -> bool {
    lookup(tasks, task_id) matches Some(info) && info.running
}

/// The contents of what was looked up.
pub open spec fn info_of(found: Option<InFlightInfo>) -> Option<InFlightInfoView> {
    match found {
        Some(info) => Some(info@),
        None => None,
    }
}

/// What a map has for a key, if anything.
pub open spec fn lookup(tasks: Map<Seq<char>, InFlightInfoView>, task_id: Seq<char>) -> Option<
    InFlightInfoView,
> {
    if tasks.dom().contains(task_id) {
        Some(tasks[task_id])
    } else {
        None
    }
}

/// In-flight task index, from the id of a task to what is remembered of it.
/// Populated when a task is enqueued and by workers on claim, cleared when a
/// result is written or an attempt has ended; the queue itself cannot list its
/// jobs.
#[derive(Debug)]
pub struct InFlight {
    tasks: Vec<(String, InFlightInfo)>,
}

impl InFlight {
    /// The tasks with what is remembered of them, in the order in which they
    /// are listed.
    pub closed spec fn listed(self) -> Seq<(Seq<char>, InFlightInfoView)> {
        self.tasks@.map_values(|task: (String, InFlightInfo)| (task.0@, task.1@))
    }

    /// No task is listed twice.
    #[verifier::type_invariant]
    pub open spec fn wf(self) -> bool {
        forall|i: int, j: int|
            0 <= i < j < self.listed().len() ==> (#[trigger] self.listed()[i]).0 != (
            #[trigger] self.listed()[j]).0
    }

    /// Whether a task is listed.
    pub open spec fn lists(self, task_id: Seq<char>) -> bool {
        exists|i: int| 0 <= i < self.listed().len() && (#[trigger] self.listed()[i]).0 == task_id
    }

    /// What is remembered of a task that is listed at `i` is what the index has
    /// for it.
    proof fn lemma_listed(self, i: int)
        requires
            self.wf(),
            0 <= i < self.listed().len(),
        ensures
            self@.dom().contains(self.listed()[i].0),
            self@[self.listed()[i].0] == self.listed()[i].1,
    {
        let task_id = self.listed()[i].0;
        assert(self.lists(task_id));
        let j = choose|j: int|
            0 <= j < self.listed().len() && (#[trigger] self.listed()[j]).0 == task_id;
        assert(i == j) by {
            if i < j {
                assert(self.listed()[i].0 != self.listed()[j].0);
            } else if j < i {
                assert(self.listed()[j].0 != self.listed()[i].0);
            }
        }
    }

    /// An empty index.
    pub fn new() -> (tasks: InFlight)
        ensures
            tasks.listed() == Seq::<(Seq<char>, InFlightInfoView)>::empty(),
            tasks@ == Map::<Seq<char>, InFlightInfoView>::empty(),
    {
        let tasks: InFlight = InFlight { tasks: Vec::new() };
        assert(tasks.listed() =~= Seq::empty());
        assert(tasks@ =~= Map::empty());
        tasks
    }

    /// Remembers a task, in place of what was remembered of it before.
    pub fn insert(&mut self, task_id: String, info: InFlightInfo)
        ensures
            final(self)@ == old(self)@.insert(task_id@, info@),
    {
        proof {
            use_type_invariant(&*self);
        }
        let ghost before: InFlight = *self;
        let ghost key: Seq<char> = task_id@;
        let ghost value: InFlightInfoView = info@;
        let position: Option<usize> = self.position(task_id.as_str());
        let mut tasks: Vec<(String, InFlightInfo)> = Vec::new();
        std::mem::swap(&mut tasks, &mut self.tasks);
        match position {
            Some(at) => {
                tasks.set(at, (task_id, info));
            },
            None => {
                tasks.push((task_id, info));
            },
        }
        let ghost after: InFlight = InFlight { tasks };
        proof {
            let at = match position {
                Some(at) => at as int,
                None => before.listed().len() as int,
            };
            if position is Some {
                assert(after.listed() =~= before.listed().update(at, (key, value)));
            } else {
                assert(after.listed() =~= before.listed().push((key, value)));
            }
            assert forall|i: int, j: int|
                0 <= i < j < after.listed().len() implies (#[trigger] after.listed()[i]).0 != (
            #[trigger] after.listed()[j]).0 by {
                if j < before.listed().len() {
                    assert(before.listed()[i].0 != before.listed()[j].0);
                } else {
                    assert(after.listed()[i] == before.listed()[i]);
                }
            }
            after.lemma_listed(at);
            assert forall|other: Seq<char>|
                #![trigger after@.dom().contains(other)]
                other != key implies (after@.dom().contains(other)
                <==> before@.dom().contains(other)) && (after@.dom().contains(other)
                ==> after@[other] == before@[other]) by {
                if before.lists(other) {
                    let i = choose|i: int|
                        0 <= i < before.listed().len() && (#[trigger] before.listed()[i]).0
                            == other;
                    before.lemma_listed(i);
                    assert(after.listed()[i] == before.listed()[i]);
                    after.lemma_listed(i);
                } else if after.lists(other) {
                    let i = choose|i: int|
                        0 <= i < after.listed().len() && (#[trigger] after.listed()[i]).0 == other;
                    assert(before.listed()[i] == after.listed()[i]);
                }
            }
            assert(after@.dom() =~= before@.dom().insert(key));
            assert(after@ =~= before@.insert(key, value));
        }
        self.tasks = tasks;
    }

    /// Forgets a task, and tells what was remembered of it.
    pub fn remove(&mut self, task_id: &str) -> (removed: Option<InFlightInfo>)
        ensures
            final(self)@ == old(self)@.remove(task_id@),
            info_of(removed) == lookup(old(self)@, task_id@),
    {
        proof {
            use_type_invariant(&*self);
        }
        let ghost before: InFlight = *self;
        match self.position(task_id) {
            Some(at) => {
                let mut tasks: Vec<(String, InFlightInfo)> = Vec::new();
                std::mem::swap(&mut tasks, &mut self.tasks);
                let (_, info) = tasks.remove(at);
                let ghost after: InFlight = InFlight { tasks };
                proof {
                    assert(after.listed() =~= before.listed().remove(at as int));
                    before.lemma_listed(at as int);
                    assert forall|i: int, j: int|
                        0 <= i < j < after.listed().len() implies (#[trigger] after.listed()[i]).0
                        != (#[trigger] after.listed()[j]).0 by {
                        let a = if i < at { i } else { i + 1 };
                        let b = if j < at { j } else { j + 1 };
                        assert(before.listed()[a].0 != before.listed()[b].0);
                    }
                    assert forall|other: Seq<char>|
                        #![trigger after@.dom().contains(other)]
                        (after@.dom().contains(other) <==> other
                        != task_id@ && before@.dom().contains(other)) && (after@.dom().contains(
                        other,
                    ) ==> after@[other] == before@[other]) by {
                        if after.lists(other) {
                            let i = choose|i: int|
                                0 <= i < after.listed().len() && (#[trigger] after.listed()[i]).0
                                    == other;
                            let a = if i < at { i } else { i + 1 };
                            assert(before.listed()[a] == after.listed()[i]);
                            before.lemma_listed(a);
                            after.lemma_listed(i);
                            if a < at {
                                assert(before.listed()[a].0 != before.listed()[at as int].0);
                            } else {
                                assert(before.listed()[at as int].0 != before.listed()[a].0);
                            }
                        } else if other != task_id@ && before.lists(other) {
                            let a = choose|a: int|
                                0 <= a < before.listed().len() && (#[trigger] before.listed()[a]).0
                                    == other;
                            let i = if a < at { a } else { a - 1 };
                            assert(after.listed()[i] == before.listed()[a]);
                        }
                    }
                    assert(after@.dom() =~= before@.dom().remove(task_id@));
                    assert(after@ =~= before@.remove(task_id@));
                }
                self.tasks = tasks;
                Some(info)
            },
            None => {
                assert(!before.lists(task_id@));
                assert(self@ =~= before@.remove(task_id@));
                None
            },
        }
    }

    /// What is remembered of a task.
    pub fn get(&self, task_id: &str) -> (found: Option<InFlightInfo>)
        ensures
            info_of(found) == lookup(self@, task_id@),
    {
        match self.position(task_id) {
            Some(at) => {
                proof {
                    use_type_invariant(self);
                    self.lemma_listed(at as int);
                }
                let info: &InFlightInfo = &self.tasks[at].1;
                Some(
                    InFlightInfo {
                        tool: info.tool.clone(),
                        started_at_ms: info.started_at_ms,
                        running: info.running,
                    },
                )
            },
            None => None,
        }
    }

    /// Whether a task is under way.
    pub fn contains_key(&self, task_id: &str) -> (contained: bool)
        ensures
            contained == self@.dom().contains(task_id@),
    {
        match self.position(task_id) {
            Some(at) => {
                proof {
                    use_type_invariant(self);
                    self.lemma_listed(at as int);
                }
                true
            },
            None => false,
        }
    }

    /// How many tasks are under way.
    pub fn len(&self) -> (len: usize)
        ensures
            len == self.listed().len(),
    {
        self.tasks.len()
    }

    /// The task listed at `at`: its id, and what is remembered of it.
    pub fn task(&self, at: usize) -> (task: (&str, &InFlightInfo))
        requires
            at < self.listed().len(),
        ensures
            task.0@ == self.listed()[at as int].0,
            task.1@ == self.listed()[at as int].1,
    {
        (self.tasks[at].0.as_str(), &self.tasks[at].1)
    }

    /// Where a task is listed, if it is.
    fn position(&self, task_id: &str) -> (position: Option<usize>)
        ensures
            match position {
                Some(at) => at < self.listed().len() && self.listed()[at as int].0 == task_id@,
                None => forall|i: int|
                    0 <= i < self.listed().len() ==> (#[trigger] self.listed()[i]).0 != task_id@,
            },
    {
        let wanted: String = task_id.to_owned();
        let mut next: usize = 0;
        while next < self.tasks.len()
            invariant
                next <= self.tasks.len() == self.listed().len(),
                wanted@ == task_id@,
                forall|i: int|
                    0 <= i < next ==> (#[trigger] self.listed()[i]).0 != task_id@,
            decreases self.tasks.len() - next,
        {
            if self.tasks[next].0 == wanted {
                return Some(next);
            }
            next = next + 1;
        }
        None
    }
}

impl Clone for InFlight {
    fn clone(&self) -> (copy: InFlight)
        ensures
            copy.listed() == self.listed(),
            copy@ == self@,
    {
        proof {
            use_type_invariant(self);
        }
        let mut tasks: Vec<(String, InFlightInfo)> = Vec::new();
        let mut next: usize = 0;
        while next < self.tasks.len()
            invariant
                next <= self.tasks.len(),
                tasks.len() == next,
                forall|i: int|
                    #![trigger tasks@[i]]
                    0 <= i < next ==> tasks@[i].0@ == self.tasks@[i].0@ && tasks@[i].1@
                        == self.tasks@[i].1@,
            decreases self.tasks.len() - next,
        {
            let info: &InFlightInfo = &self.tasks[next].1;
            let copied: InFlightInfo = InFlightInfo {
                tool: info.tool.clone(),
                started_at_ms: info.started_at_ms,
                running: info.running,
            };
            tasks.push((self.tasks[next].0.clone(), copied));
            next = next + 1;
        }
        let ghost copy: InFlight = InFlight { tasks };
        assert(copy.listed() =~= self.listed());
        assert(copy@ =~= self@);
        InFlight { tasks }
    }
}

impl View for InFlight {
    type V = Map<Seq<char>, InFlightInfoView>;

    open spec fn view(&self) -> Map<Seq<char>, InFlightInfoView> {
        Map::new(
            |task_id: Seq<char>| self.lists(task_id),
            |task_id: Seq<char>|
                self.listed()[choose|i: int|
                    0 <= i < self.listed().len() && (#[trigger] self.listed()[i]).0 == task_id].1,
        )
    }
}

/// The tasks of the index are the tasks that it lists, each once.
pub proof fn in_flight_lists_its_tasks(tasks: InFlight, i: int, task_id: Seq<char>)
    requires
        tasks.wf(),
    ensures
        tasks@.dom().finite(),
        tasks@.dom().len() == tasks.listed().len(),
        0 <= i < tasks.listed().len() ==> lookup(tasks@, tasks.listed()[i].0) == Some(
            tasks.listed()[i].1,
        ),
        tasks@.dom().contains(task_id) ==> exists|j: int|
            0 <= j < tasks.listed().len() && (#[trigger] tasks.listed()[j]).0 == task_id,
{
    if 0 <= i < tasks.listed().len() {
        tasks.lemma_listed(i);
    }
    let ids = tasks.listed().map_values(|task: (Seq<char>, InFlightInfoView)| task.0);
    assert(ids.no_duplicates()) by {
        assert forall|a: int, b: int|
            0 <= a < ids.len() && 0 <= b < ids.len() && a != b implies ids[a] != ids[b] by {
            if a < b {
                assert(tasks.listed()[a].0 != tasks.listed()[b].0);
            } else {
                assert(tasks.listed()[b].0 != tasks.listed()[a].0);
            }
        }
    }
    ids.unique_seq_to_set();
    assert(tasks@.dom() =~= ids.to_set()) by {
        assert forall|id: Seq<char>| tasks@.dom().contains(id) <==> ids.to_set().contains(id) by {
            if tasks.lists(id) {
                let k = choose|k: int|
                    0 <= k < tasks.listed().len() && (#[trigger] tasks.listed()[k]).0 == id;
                assert(ids[k] == id);
            }
            if ids.contains(id) {
                let k = choose|k: int| 0 <= k < ids.len() && ids[k] == id;
                assert(tasks.listed()[k].0 == id);
            }
        }
    }
}

} // verus!
