use std::cell::Cell;
use std::rc::Rc;

use ensure::CheckEnsureResult::{EnsureAction, Met};
use ensure::{
    ensure, recheck_result, Absent, CheckEnsureResult, Convergence, Ensure, EnsureFn, Existential,
    Meet, MeetFn, Present, VerificationError,
};

fn scenario(met: bool, fail: bool) -> impl Ensure<u8, EnsureAction = impl Meet<Met = u8, Error = u8>> {
    EnsureFn(move || {
        if met {
            if fail {
                Err(2)
            } else {
                Ok(Met(1))
            }
        } else {
            Ok(EnsureAction(MeetFn(move || if fail { Err(4) } else { Ok(3) })))
        }
    })
}

#[test]
fn scenario_met_without_failure_is_already_satisfied() {
    assert_eq!(scenario(true, false).converge(), Ok(Convergence::AlreadySatisfied(1)));
}

#[test]
fn scenario_failing_check_gives_its_error() {
    assert_eq!(scenario(true, true).converge(), Err(2));
}

#[test]
fn scenario_unmet_without_failure_is_newly_satisfied() {
    assert_eq!(scenario(false, false).converge(), Ok(Convergence::NewlySatisfied(3)));
}

#[test]
fn scenario_failing_action_gives_its_error() {
    assert_eq!(scenario(false, true).converge(), Err(4));
}

#[test]
fn scenario_through_ensure_drops_the_distinction() {
    assert_eq!(ensure(scenario(true, false)), Ok(1));
    assert_eq!(ensure(scenario(true, true)), Err(2));
    assert_eq!(ensure(scenario(false, false)), Ok(3));
    assert_eq!(ensure(scenario(false, true)), Err(4));
}

fn counted(
    outcome: Result<bool, &'static str>,
    action: Result<u32, &'static str>,
    checks: Rc<Cell<u32>>,
    actions: Rc<Cell<u32>>,
) -> impl Ensure<u32, EnsureAction = impl Meet<Met = u32, Error = &'static str>> {
    EnsureFn(move || {
        checks.set(checks.get() + 1);
        match outcome {
            Err(e) => Err(e),
            Ok(true) => Ok(Met(7)),
            Ok(false) => Ok(EnsureAction(MeetFn(move || {
                actions.set(actions.get() + 1);
                action
            }))),
        }
    })
}

#[test]
fn met_state_performs_no_action() {
    let checks = Rc::new(Cell::new(0));
    let actions = Rc::new(Cell::new(0));
    let s = counted(Ok(true), Err("must not run"), checks.clone(), actions.clone());
    assert_eq!(s.converge(), Ok(Convergence::AlreadySatisfied(7)));
    assert_eq!(checks.get(), 1);
    assert_eq!(actions.get(), 0);
}

#[test]
fn met_state_never_calls_a_panicking_action() {
    let s = EnsureFn(|| -> Result<CheckEnsureResult<u8, MeetFn<fn() -> Result<u8, ()>>>, ()> {
        if true {
            Ok(Met(5))
        } else {
            Ok(EnsureAction(MeetFn(|| panic!("action invoked"))))
        }
    });
    assert_eq!(s.converge(), Ok(Convergence::AlreadySatisfied(5)));
}

#[test]
fn unmet_state_performs_the_action_once() {
    let checks = Rc::new(Cell::new(0));
    let actions = Rc::new(Cell::new(0));
    let s = counted(Ok(false), Ok(11), checks.clone(), actions.clone());
    assert_eq!(s.converge(), Ok(Convergence::NewlySatisfied(11)));
    assert_eq!(checks.get(), 1);
    assert_eq!(actions.get(), 1);
}

#[test]
fn failing_check_makes_no_action() {
    let checks = Rc::new(Cell::new(0));
    let actions = Rc::new(Cell::new(0));
    let s = counted(Err("inaccessible"), Ok(11), checks.clone(), actions.clone());
    assert_eq!(s.converge(), Err("inaccessible"));
    assert_eq!(actions.get(), 0);
}

#[test]
fn failing_action_error_is_returned_unchanged() {
    let checks = Rc::new(Cell::new(0));
    let actions = Rc::new(Cell::new(0));
    let s = counted(Ok(false), Err("write failed"), checks.clone(), actions.clone());
    assert_eq!(s.ensure(), Err("write failed"));
    assert_eq!(actions.get(), 1);
}

#[derive(Debug, PartialEq)]
enum FileError {
    Unverified,
    Io(u8),
}

impl From<VerificationError> for FileError {
    fn from(_: VerificationError) -> FileError {
        FileError::Unverified
    }
}

/// A file in a shared store; creating it sticks only where `durable` holds.
#[derive(Clone)]
struct File {
    exists: Rc<Cell<bool>>,
    durable: bool,
    fail_with: Option<u8>,
}

struct CreateFile(File);

impl Meet for CreateFile {
    type Met = u32;
    type Error = FileError;

    fn meet(self) -> Result<u32, FileError> {
        if let Some(code) = self.0.fail_with {
            return Err(FileError::Io(code));
        }
        if self.0.durable {
            self.0.exists.set(true);
        }
        Ok(42)
    }
}

impl Ensure<u32> for File {
    type EnsureAction = CreateFile;

    fn check_ensure(self) -> Result<CheckEnsureResult<u32, CreateFile>, FileError> {
        Ok(if self.exists.get() { Met(1) } else { EnsureAction(CreateFile(self)) })
    }
}

fn file(exists: bool, durable: bool, fail_with: Option<u8>) -> File {
    File { exists: Rc::new(Cell::new(exists)), durable, fail_with }
}

#[test]
fn verify_returns_action_value_when_recheck_is_met() {
    let f = file(false, true, None);
    let store = f.exists.clone();
    assert_eq!(f.ensure_verify(), Ok(42));
    assert!(store.get());
}

#[test]
fn verify_fails_when_recheck_still_needs_action() {
    assert_eq!(file(false, false, None).ensure_verify(), Err(FileError::Unverified));
}

#[test]
fn verify_on_met_state_returns_the_met_value() {
    assert_eq!(file(true, false, None).ensure_verify(), Ok(1));
}

#[test]
fn verify_passes_action_error_through() {
    assert_eq!(file(false, true, Some(9)).ensure_verify(), Err(FileError::Io(9)));
}

#[test]
fn plain_ensure_does_not_recheck() {
    assert_eq!(file(false, false, None).ensure(), Ok(42));
}

type FileAction = MeetFn<fn() -> Result<u32, FileError>>;

#[test]
fn recheck_met_returns_the_action_value() {
    assert_eq!(recheck_result::<u32, FileAction>(Ok(Met(1)), 42), Ok(42));
}

#[test]
fn recheck_error_is_returned_unchanged() {
    assert_eq!(recheck_result::<u32, FileAction>(Err(FileError::Io(3)), 42), Err(FileError::Io(3)));
}

#[test]
fn recheck_asking_for_action_is_a_verification_error() {
    let c: Result<CheckEnsureResult<u32, FileAction>, FileError> =
        Ok(EnsureAction(MeetFn(|| Ok(5))));
    assert_eq!(recheck_result(c, 42), Err(FileError::Unverified));
}

/// A check that answers from a script, one answer per call, shared by its clones.
fn scripted(
    answers: Vec<Result<bool, u8>>,
) -> EnsureFn<impl FnOnce() -> Result<CheckEnsureResult<u32, FileAction>, FileError> + Clone> {
    let calls = Rc::new(Cell::new(0usize));
    EnsureFn(move || {
        let i = calls.get();
        calls.set(i + 1);
        match answers[i] {
            Err(code) => Err(FileError::Io(code)),
            Ok(true) => Ok(Met(1)),
            Ok(false) => Ok(EnsureAction(MeetFn((|| Ok(42)) as fn() -> Result<u32, FileError>))),
        }
    })
}

#[test]
fn closure_verify_returns_action_value_when_recheck_is_met() {
    assert_eq!(scripted(vec![Ok(false), Ok(true)]).ensure_verify(), Ok(42));
}

#[test]
fn closure_verify_fails_when_recheck_still_needs_action() {
    assert_eq!(scripted(vec![Ok(false), Ok(false)]).ensure_verify(), Err(FileError::Unverified));
}

#[test]
fn closure_verify_passes_recheck_error_through() {
    assert_eq!(scripted(vec![Ok(false), Err(6)]).ensure_verify(), Err(FileError::Io(6)));
}

#[test]
fn closure_verify_passes_check_error_through() {
    assert_eq!(scripted(vec![Err(8)]).ensure_verify(), Err(FileError::Io(8)));
}

#[test]
fn verification_error_message() {
    assert_eq!(
        VerificationError.message(),
        "verification of target state failed after it was ensured to be met"
    );
}

#[test]
fn markers_wrap_their_value() {
    let p = Present(3u8);
    let a = Absent("gone");
    assert_eq!(*p, 3);
    assert_eq!(*a, "gone");
    assert_eq!(p, Present(3));
    assert_ne!(p, Present(4));
    assert!(Present(1) < Present(2));
    assert!(Absent(5) > Absent(2));
    assert_eq!(format!("{:?}", p), "Present(3)");
    assert_eq!(format!("{:?}", a), "Absent(\"gone\")");
}

/// A record that may be present in, or absent from, a shared store.
struct Record {
    present: Rc<Cell<bool>>,
}

struct Insert(Record);
struct Remove(Record);

impl Meet for Insert {
    type Met = Present<Record>;
    type Error = ();

    fn meet(self) -> Result<Present<Record>, ()> {
        self.0.present.set(true);
        Ok(Present(self.0))
    }
}

impl Meet for Remove {
    type Met = Absent<Record>;
    type Error = ();

    fn meet(self) -> Result<Absent<Record>, ()> {
        self.0.present.set(false);
        Ok(Absent(self.0))
    }
}

impl Ensure<Present<Record>> for Record {
    type EnsureAction = Insert;

    fn check_ensure(self) -> Result<CheckEnsureResult<Present<Record>, Insert>, ()> {
        Ok(if self.present.get() { Met(Present(self)) } else { EnsureAction(Insert(self)) })
    }
}

impl Ensure<Absent<Record>> for Record {
    type EnsureAction = Remove;

    fn check_ensure(self) -> Result<CheckEnsureResult<Absent<Record>, Remove>, ()> {
        Ok(if self.present.get() { EnsureAction(Remove(self)) } else { Met(Absent(self)) })
    }
}

#[test]
fn existential_paths_perform_their_actions() {
    let store = Rc::new(Cell::new(false));
    let r = Record { present: store.clone() }.ensure_present();
    assert!(r.is_ok());
    assert!(store.get());
    let r = Record { present: store.clone() }.ensure_present();
    assert!(r.is_ok());
    assert!(store.get());
    let r = Record { present: store.clone() }.ensure_absent();
    assert!(r.is_ok());
    assert!(!store.get());
}
