//! The options of a worker.

use vstd::prelude::*;

verus! {

/// A hook around the calls to the engine. It carries nothing yet.
pub struct Interceptor {}

/// The options of a worker. `Config::new` gives the defaults; the `with_*`
/// methods replace one option each.
pub struct Config {
    base_url: String,
    worker_id: String,
    max_tasks: u32,
    use_priority: bool,
    interval: u64,
    lock_duration: u32,
    auto_poll: bool,
    interceptors: Vec<Interceptor>,
}

/// The mathematical value of a [`Config`].
pub ghost struct ConfigView {
    /// Root of the engine's endpoint; request paths are appended to it.
    pub base_url: Seq<char>,
    /// The identity under which tasks are leased.
    pub worker_id: Seq<char>,
    /// The most tasks that one lease request asks for.
    pub max_tasks: u32,
    /// Whether the engine is asked to hand out tasks by priority.
    pub use_priority: bool,
    /// Milliseconds between the end of one tick and the start of the next.
    pub interval: u64,
    /// The lease length, in milliseconds, of a topic that names none.
    pub lock_duration: u32,
    /// Whether a client starts polling as soon as it is made.
    pub auto_poll: bool,
    pub interceptors: Seq<Interceptor>,
}

impl View for Config {
    type V = ConfigView;

    closed spec fn view(&self) -> ConfigView {
        ConfigView {
            base_url: self.base_url@,
            worker_id: self.worker_id@,
            max_tasks: self.max_tasks,
            use_priority: self.use_priority,
            interval: self.interval,
            lock_duration: self.lock_duration,
            auto_poll: self.auto_poll,
            interceptors: self.interceptors@,
        }
    }
}

/// The options of a worker that sets none, for the given endpoint.
pub open spec fn default_options(base_url: Seq<char>) -> ConfigView {
    ConfigView {
        base_url,
        worker_id: "some-random-id"@,
        max_tasks: 10,
        use_priority: true,
        interval: 1000,
        lock_duration: 50000,
        auto_poll: true,
        interceptors: Seq::empty(),
    }
}

impl Default for Config {
    fn default() -> (config: Self)
        ensures
            config@ == default_options(Seq::empty()),
    {
        Config {
            base_url: String::new(),
            worker_id: "some-random-id".to_string(),
            max_tasks: 10,
            use_priority: true,
            interval: 1000,
            lock_duration: 50000,
            auto_poll: true,
            interceptors: Vec::new(),
        }
    }
}

impl Config {
    /// The default options for the endpoint at `base_url`.
    pub fn new(base_url: &str) -> (config: Self)
        ensures
            config@ == default_options(base_url@),
    {
        let mut config = Config::default();
        config.base_url = base_url.to_string();
        config
    }

    pub fn base_url(&self) -> (base_url: &str)
        ensures
            base_url@ == self@.base_url,
    {
        self.base_url.as_str()
    }

    pub fn worker_id(&self) -> (worker_id: &str)
        ensures
            worker_id@ == self@.worker_id,
    {
        self.worker_id.as_str()
    }

    pub fn max_tasks(&self) -> (max_tasks: u32)
        ensures
            max_tasks == self@.max_tasks,
    {
        self.max_tasks
    }

    pub fn use_priority(&self) -> (use_priority: bool)
        ensures
            use_priority == self@.use_priority,
    {
        self.use_priority
    }

    pub fn interval(&self) -> (interval: u64)
        ensures
            interval == self@.interval,
    {
        self.interval
    }

    pub fn lock_duration(&self) -> (lock_duration: u32)
        ensures
            lock_duration == self@.lock_duration,
    {
        self.lock_duration
    }

    pub fn auto_poll(&self) -> (auto_poll: bool)
        ensures
            auto_poll == self@.auto_poll,
    {
        self.auto_poll
    }

    pub fn interceptors(&self) -> (interceptors: &Vec<Interceptor>)
        ensures
            interceptors@ == self@.interceptors,
    {
        &self.interceptors
    }

    pub fn with_base_url(self, base_url: String) -> (config: Self)
        ensures
            config@ == (ConfigView { base_url: base_url@, ..self@ }),
    {
        let mut config = self;
        config.base_url = base_url;
        config
    }

    pub fn with_worker_id(self, worker_id: &str) -> (config: Self)
        ensures
            config@ == (ConfigView { worker_id: worker_id@, ..self@ }),
    {
        let mut config = self;
        config.worker_id = worker_id.to_string();
        config
    }

    pub fn with_max_tasks(self, max_tasks: u32) -> (config: Self)
        ensures
            config@ == (ConfigView { max_tasks, ..self@ }),
    {
        let mut config = self;
        config.max_tasks = max_tasks;
        config
    }

    pub fn with_use_priority(self, use_priority: bool) -> (config: Self)
        ensures
            config@ == (ConfigView { use_priority, ..self@ }),
    {
        let mut config = self;
        config.use_priority = use_priority;
        config
    }

    pub fn with_interval(self, interval: u64) -> (config: Self)
        ensures
            config@ == (ConfigView { interval, ..self@ }),
    {
        let mut config = self;
        config.interval = interval;
        config
    }

    pub fn with_lock_duration(self, lock_duration: u32) -> (config: Self)
        ensures
            config@ == (ConfigView { lock_duration, ..self@ }),
    {
        let mut config = self;
        config.lock_duration = lock_duration;
        config
    }

    pub fn with_auto_poll(self, auto_poll: bool) -> (config: Self)
        ensures
            config@ == (ConfigView { auto_poll, ..self@ }),
    {
        let mut config = self;
        config.auto_poll = auto_poll;
        config
    }

    pub fn with_interceptors(self, interceptors: Vec<Interceptor>) -> (config: Self)
        ensures
            config@ == (ConfigView { interceptors: interceptors@, ..self@ }),
    {
        let mut config = self;
        config.interceptors = interceptors;
        config
    }
}

} // verus!
