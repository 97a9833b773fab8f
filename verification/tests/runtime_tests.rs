use std::sync::Arc;
use std::sync::Mutex;
use std::sync::atomic::AtomicBool;
use std::sync::atomic::AtomicUsize;
use std::sync::atomic::Ordering;
use std::time::Duration;
use std::time::Instant;

use douglas::Command;
use douglas::Config;
use douglas::Mailbox;
use douglas::Program;
use douglas::Timer;
use douglas::WorkerThread;

#[test]
fn it_works() {
    struct App;

    impl Program for App {
        type Message = ();

        fn init(&mut self, _: Mailbox<Self::Message>) -> Command<Self::Message> {
            Command::exit()
        }

        fn update(&mut self, _: Self::Message) -> Command<Self::Message> {
            // make sure all commands compile
            Command::batch(vec![
                Command::none(),
                Command::send(()),
                Command::sync(|| {}),
                Command::exit(),
            ])
        }

        fn view(&self) -> String {
            "hello, world!\n".into()
        }
    }

    let mut config = Config::buffered();
    App.run(&mut config).unwrap();
    assert_eq!(config.renderer.output(), "hello, world!\n");
}

#[test]
fn buffered_output_is_the_exact_last_frame_even_when_empty() {
    struct App;

    impl Program for App {
        type Message = ();

        fn init(&mut self, _: Mailbox<Self::Message>) -> Command<Self::Message> {
            Command::exit()
        }

        fn view(&self) -> String {
            String::new()
        }
    }

    let mut config = Config::buffered();
    App.run(&mut config).unwrap();
    assert_eq!(config.renderer.output(), "");
}

#[test]
fn buffered_output_keeps_multi_line_frames_exactly() {
    struct App;

    impl Program for App {
        type Message = ();

        fn init(&mut self, _: Mailbox<Self::Message>) -> Command<Self::Message> {
            Command::exit()
        }

        fn view(&self) -> String {
            "line one\nline two\n\ntrailing\n".into()
        }
    }

    let mut config = Config::buffered();
    App.run(&mut config).unwrap();
    assert_eq!(config.renderer.output(), "line one\nline two\n\ntrailing\n");
}

#[test]
fn init_terminate_renders_once_and_never_updates() {
    struct App {
        views: Arc<AtomicUsize>,
        updated: Arc<AtomicBool>,
    }

    impl Program for App {
        type Message = ();

        fn init(&mut self, _: Mailbox<Self::Message>) -> Command<Self::Message> {
            Command::exit()
        }

        fn update(&mut self, _: Self::Message) -> Command<Self::Message> {
            self.updated.store(true, Ordering::SeqCst);
            Command::none()
        }

        fn view(&self) -> String {
            self.views.fetch_add(1, Ordering::SeqCst);
            "still here\n".into()
        }
    }

    let views = Arc::new(AtomicUsize::new(0));
    let updated = Arc::new(AtomicBool::new(false));
    let app = App { views: Arc::clone(&views), updated: Arc::clone(&updated) };
    let mut config = Config::buffered();
    app.run(&mut config).unwrap();
    assert_eq!(views.load(Ordering::SeqCst), 1);
    assert!(!updated.load(Ordering::SeqCst));
}

enum CounterMessage {
    Increment,
    Decrement,
}

#[test]
fn counter_app_renders_the_final_count() {
    struct App {
        count: isize,
        handled: usize,
    }

    impl Program for App {
        type Message = CounterMessage;

        fn init(&mut self, mailbox: Mailbox<Self::Message>) -> Command<Self::Message> {
            // the input sequence up, up, down, up
            mailbox.send(CounterMessage::Increment).unwrap();
            mailbox.send(CounterMessage::Increment).unwrap();
            mailbox.send(CounterMessage::Decrement).unwrap();
            mailbox.send(CounterMessage::Increment).unwrap();
            Command::none()
        }

        fn update(&mut self, message: Self::Message) -> Command<Self::Message> {
            match message {
                CounterMessage::Increment => self.count += 1,
                CounterMessage::Decrement => self.count -= 1,
            }
            self.handled += 1;
            if self.handled == 4 {
                Command::exit()
            } else {
                Command::none()
            }
        }

        fn view(&self) -> String {
            format!("count: {}\n", self.count)
        }
    }

    let mut config = Config::buffered();
    App { count: 0, handled: 0 }.run(&mut config).unwrap();
    assert!(config.renderer.output().contains("count: 2"));
}

#[test]
fn mailbox_send_after_the_run_has_stopped_is_a_closed_error() {
    struct App {
        stash: Arc<Mutex<Option<Mailbox<u32>>>>,
    }

    impl Program for App {
        type Message = u32;

        fn init(&mut self, mailbox: Mailbox<Self::Message>) -> Command<Self::Message> {
            *self.stash.lock().unwrap() = Some(mailbox.clone());
            mailbox.send(5).unwrap();
            Command::none()
        }

        fn update(&mut self, message: Self::Message) -> Command<Self::Message> {
            assert_eq!(message, 5);
            Command::exit()
        }

        fn view(&self) -> String {
            "waiting\n".into()
        }
    }

    let stash = Arc::new(Mutex::new(None));
    let app = App { stash: Arc::clone(&stash) };
    let mut config = Config::buffered();
    app.run(&mut config).unwrap();

    let mailbox = stash.lock().unwrap().take().unwrap();
    assert_eq!(mailbox.send(9), Err("mailbox has been closed"));
    // a second send on a clone fails the same way, without blocking
    assert_eq!(mailbox.clone().send(10), Err("mailbox has been closed"));
}

#[test]
fn worker_close_returns_after_the_work_observed_cancellation() {
    let observed = Arc::new(AtomicBool::new(false));
    let seen = Arc::clone(&observed);
    let worker = WorkerThread::new(move |done: crossbeam_channel::Receiver<()>| {
        let _ = done.recv();
        seen.store(true, Ordering::SeqCst);
    });
    assert!(!observed.load(Ordering::SeqCst));
    worker.close().unwrap();
    assert!(observed.load(Ordering::SeqCst));
}

#[test]
fn worker_close_surfaces_abnormal_termination_as_an_error() {
    let worker = WorkerThread::new(|done: crossbeam_channel::Receiver<()>| {
        let _ = done.recv();
        panic!("the work gives up");
    });
    assert_eq!(worker.close(), Err("worker thread failed"));
}

#[derive(Clone)]
enum TickMessage {
    Tick,
}

struct TimedApp {
    timer: Timer<TickMessage>,
    ticks: Arc<AtomicUsize>,
    extra_start: bool,
}

impl Program for TimedApp {
    type Message = TickMessage;

    fn init(&mut self, mailbox: Mailbox<Self::Message>) -> Command<Self::Message> {
        self.timer.start(mailbox.clone());
        if self.extra_start {
            // a second start without an intervening stop must not add a
            // second worker, or the ticks below arrive twice as fast
            self.timer.start(mailbox);
        }
        Command::none()
    }

    fn update(&mut self, message: Self::Message) -> Command<Self::Message> {
        let TickMessage::Tick = message;
        let seen = self.ticks.fetch_add(1, Ordering::SeqCst) + 1;
        if seen >= 4 {
            Command::exit()
        } else {
            Command::none()
        }
    }

    fn exit(mut self) {
        self.timer.stop();
        // stopping again does nothing
        self.timer.stop();
    }

    fn view(&self) -> String {
        format!("ticks: {}\n", self.ticks.load(Ordering::SeqCst))
    }
}

// A timer with a 50ms interval delivers its ticks one by one, roughly
// 220ms for four of them: one live worker needs at least three full
// intervals beyond the first tick, while a runaway duplicated worker
// would get there in about half that, and a stalled timer not at all.
fn elapsed_until_four_ticks(extra_start: bool) -> Duration {
    let ticks = Arc::new(AtomicUsize::new(0));
    let app = TimedApp {
        timer: Timer::new(Duration::from_millis(50), TickMessage::Tick),
        ticks: Arc::clone(&ticks),
        extra_start,
    };
    let mut config = Config::buffered();
    let started = Instant::now();
    app.run(&mut config).unwrap();
    let elapsed = started.elapsed();
    // one more tick may slip in between the fourth one and the exit
    let seen = ticks.load(Ordering::SeqCst);
    assert!(4 <= seen && seen <= 5, "saw {} ticks", seen);
    elapsed
}

#[test]
fn timer_delivers_periodic_ticks() {
    let elapsed = elapsed_until_four_ticks(false);
    assert!(
        Duration::from_millis(150) <= elapsed && elapsed <= Duration::from_millis(2000),
        "four ticks took {:?}",
        elapsed,
    );
}

#[test]
fn starting_a_running_timer_leaves_one_worker() {
    let elapsed = elapsed_until_four_ticks(true);
    assert!(
        Duration::from_millis(150) <= elapsed && elapsed <= Duration::from_millis(2000),
        "four ticks took {:?}",
        elapsed,
    );
}
