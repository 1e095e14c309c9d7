use sjlj::{
    capture_mask_call, mask_call, resume_mask_call, Context, JumpBuf, MaskCall, MaskDirection,
    HOW_SETMASK, SIGSET_SIZE, SYS_RT_SIGPROCMASK,
};

const ADDR: usize = 0x7fff_1234;

// What the kernel does with a mask call on the process mask and the buffer
// it names: the new set is read before the old one is written.
fn kernel(call: &MaskCall, process: &mut [u8; 8], buf: &mut [u8; 8]) {
    let old = *process;
    if call.set != 0 {
        *process = *buf;
    }
    if call.oldset != 0 {
        *buf = old;
    }
}

#[test]
fn constants_match_the_kernel_interface() {
    assert_eq!(SYS_RT_SIGPROCMASK, 14);
    assert_eq!(HOW_SETMASK, 2);
    assert_eq!(SIGSET_SIZE, 8);
}

#[test]
fn save_call_arguments() {
    let c = mask_call(MaskDirection::Save, ADDR);
    assert_eq!(
        c,
        MaskCall { number: 14, how: 2, set: 0, oldset: ADDR, size: 8 }
    );
}

#[test]
fn restore_call_arguments() {
    let c = mask_call(MaskDirection::Restore, ADDR);
    assert_eq!(
        c,
        MaskCall { number: 14, how: 2, set: ADDR, oldset: 0, size: 8 }
    );
    assert_eq!(resume_mask_call(ADDR), c);
}

#[test]
fn capture_saves_only_on_initial_return() {
    assert_eq!(
        capture_mask_call(true, 0, ADDR),
        Some(mask_call(MaskDirection::Save, ADDR))
    );
    assert_eq!(capture_mask_call(true, 1, ADDR), None);
    assert_eq!(capture_mask_call(true, 9, ADDR), None);
}

#[test]
fn capture_without_mask_issues_no_call() {
    assert_eq!(capture_mask_call(false, 0, ADDR), None);
    assert_eq!(capture_mask_call(false, 3, ADDR), None);

    let mut process = [5u8, 0, 0, 0, 0, 0, 0, 0];
    let mut buf = JumpBuf::new();
    let at = Context { rbx: 1, rbp: 2, r12: 3, r13: 4, r14: 5, r15: 6, sp: 7, pc: 8 };
    let ret = buf.capture(&at);
    assert!(capture_mask_call(false, ret, ADDR).is_none());
    process[1] = 0;
    let landing = buf.resume(1);
    assert!(capture_mask_call(false, landing.code, ADDR).is_none());
    assert_eq!(landing.context, at);
    assert_eq!(process, [5u8, 0, 0, 0, 0, 0, 0, 0]);
}

#[test]
fn mask_round_trip() {
    let m = [0x01u8, 0x80, 0, 0, 0, 0, 0, 0x10];
    let mut process = m;
    let mut ss = [0u8; 8];

    let save = capture_mask_call(true, 0, ADDR).unwrap();
    kernel(&save, &mut process, &mut ss);
    assert_eq!(ss, m);
    assert_eq!(process, m);

    // A handler runs with another mask and resumes.
    process = [0xff, 0xff, 0, 0, 0, 0, 0, 0];
    kernel(&resume_mask_call(ADDR), &mut process, &mut ss);
    assert_eq!(process, m);
    assert_eq!(capture_mask_call(true, 2, ADDR), None);
}
