use epics_ca::caerr::{ECA_ALLOCMEM, ECA_NORMAL};
use epics_ca::context::{
    create_finish_actions, create_prepare_actions, destroy_finish_actions,
    destroy_prepare_actions, enter_actions, leave_actions, ContextAction, UniqueContext,
};
use epics_ca::error::{Error, ErrorKind, ErrorSeverity};

/// Thread state as the Channel Access library keeps it: the current context, zero for none.
struct Thread {
    current: usize,
}

impl Thread {
    fn run(&mut self, steps: &[ContextAction]) {
        for step in steps {
            match *step {
                ContextAction::Detach => self.current = 0,
                ContextAction::Attach(c) => {
                    assert_eq!(self.current, 0, "attach while attached");
                    assert_ne!(c, 0);
                    self.current = c;
                }
            }
        }
    }

    /// Creates a context the way a unique context is made, returning it.
    fn create(&mut self, address: usize) -> UniqueContext {
        let prev = self.current;
        self.run(&create_prepare_actions(prev));
        // The library attaches the context it creates.
        self.current = address;
        let ctx = UniqueContext::new(ECA_NORMAL, self.current).unwrap();
        self.run(&create_finish_actions(prev, true));
        ctx
    }

    fn with<R>(&mut self, ctx: &UniqueContext, f: impl FnOnce(&mut Thread) -> R) -> R {
        let prev = self.current;
        self.run(&ctx.enter_actions(prev));
        let r = f(self);
        self.run(&ctx.leave_actions(prev));
        r
    }

    fn destroy(&mut self, ctx: UniqueContext) {
        let prev = self.current;
        self.run(&destroy_prepare_actions(prev, ctx.raw()));
        // The library leaves the thread without a context.
        self.current = 0;
        self.run(&destroy_finish_actions(prev));
    }
}

#[test]
fn new() {
    UniqueContext::new(ECA_NORMAL, 0x1000).unwrap();
}

#[test]
fn new_failure_reports_error() {
    let err = UniqueContext::new(ECA_ALLOCMEM, 0).unwrap_err();
    assert_eq!(
        err,
        Error { kind: ErrorKind::Allocmem, severity: ErrorSeverity::Warning }
    );
}

#[test]
fn create_keeps_thread_detached() {
    let mut thread = Thread { current: 0 };
    let ctx = thread.create(0x1000);
    assert_eq!(thread.current, 0);
    assert_eq!(ctx.raw(), 0x1000);
}

#[test]
fn attach() {
    let mut thread = Thread { current: 0 };
    let ctx = thread.create(0x1000);
    assert_eq!(thread.current, 0);
    thread.with(&ctx, |t| {
        assert_eq!(t.current, ctx.raw());
    });
    assert_eq!(thread.current, 0);
}

#[test]
fn reattach_same() {
    let mut thread = Thread { current: 0 };
    let ctx = thread.create(0x1000);
    assert_eq!(thread.current, 0);
    thread.with(&ctx, |t| {
        assert_eq!(t.current, ctx.raw());
        t.with(&ctx, |t| {
            assert_eq!(t.current, ctx.raw());
        });
        assert_eq!(t.current, ctx.raw());
    });
    assert_eq!(thread.current, 0);
}

#[test]
fn reattach_different() {
    let mut thread = Thread { current: 0 };
    let ctx = thread.create(0x1000);
    assert_eq!(thread.current, 0);
    thread.with(&ctx, |t| {
        assert_eq!(t.current, ctx.raw());
        let other_ctx = t.create(0x2000);
        assert_eq!(t.current, ctx.raw());
        t.with(&other_ctx, |t| {
            assert_eq!(t.current, other_ctx.raw());
            t.with(&ctx, |t| {
                assert_eq!(t.current, ctx.raw());
            });
            assert_eq!(t.current, other_ctx.raw());
        });
        assert_eq!(t.current, ctx.raw());
        t.destroy(other_ctx);
        assert_eq!(t.current, ctx.raw());
    });
    assert_eq!(thread.current, 0);
}

#[test]
fn enter_and_leave_steps() {
    assert_eq!(enter_actions(0, 7), vec![ContextAction::Attach(7)]);
    assert_eq!(enter_actions(5, 7), vec![ContextAction::Detach, ContextAction::Attach(7)]);
    assert_eq!(enter_actions(7, 7), vec![]);
    assert_eq!(leave_actions(0, 7), vec![ContextAction::Detach]);
    assert_eq!(leave_actions(5, 7), vec![ContextAction::Detach, ContextAction::Attach(5)]);
    assert_eq!(leave_actions(7, 7), vec![]);
}

#[test]
fn null_context_is_refused() {
    assert!(UniqueContext::from_raw(0).is_none());
    assert_eq!(UniqueContext::from_raw(3).unwrap().raw(), 3);
}
