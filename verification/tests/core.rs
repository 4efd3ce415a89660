use payload::ForwardCall;
use payload::FrameAction;
use payload::Gfx;
use payload::HookInstaller;
use payload::InitError;
use payload::InitProbe;
use payload::InstallError;
use payload::MapEntry;
use payload::OverlayManager;
use payload::PatchOutcome;
use payload::SymbolEntry;
use payload::complete_frame;
use payload::contains_subslice;
use payload::eq_bytes;
use payload::find_module_fuzzy;
use payload::intercept_frame;
use payload::probe_address;
use payload::resolve;

fn bytes(s: &str) -> Vec<u8> {
    s.as_bytes().to_vec()
}

fn good_probe() -> InitProbe {
    InitProbe {
        width: Some(800),
        height: Some(600),
        new_ctx: Some(0x5000),
        engine: Some(7),
    }
}

#[test]
fn substring_hit_and_miss() {
    let hay = bytes("/data/app/liblibs.hal.system.rs2client.so");
    assert!(contains_subslice(&hay, &bytes("rs2client")));
    assert!(contains_subslice(&hay, &bytes("/data")));
    assert!(contains_subslice(&hay, &bytes(".so")));
    assert!(!contains_subslice(&hay, &bytes("vulkan")));
    assert!(!contains_subslice(&hay, &bytes("rs2client.so.1")));
}

#[test]
fn substring_empty_and_oversized_needle() {
    let hay = bytes("abc");
    assert!(contains_subslice(&hay, &bytes("")));
    assert!(contains_subslice(&bytes(""), &bytes("")));
    assert!(!contains_subslice(&hay, &bytes("abcd")));
    assert!(contains_subslice(&hay, &bytes("abc")));
}

#[test]
fn byte_equality() {
    assert!(eq_bytes(&bytes("eglSwapBuffers"), &bytes("eglSwapBuffers")));
    assert!(!eq_bytes(&bytes("eglSwapBuffers"), &bytes("eglSwapBuffer")));
    assert!(!eq_bytes(&bytes("a"), &bytes("b")));
}

#[test]
fn fuzzy_module_match_picks_first() {
    let maps = vec![
        MapEntry { start: 0x1000, size: 0x2000, path: bytes("[anon]") },
        MapEntry { start: 0x4000, size: 0x1000, path: bytes("/system/lib/libEGL.so") },
        MapEntry { start: 0x8000, size: 0x6000, path: bytes("/data/liblibs.hal.system.rs2client.so") },
        MapEntry { start: 0x9000, size: 0x100, path: bytes("/data/liblibs.hal.system.rs2client.so") },
    ];
    let hit = find_module_fuzzy(&maps, &bytes("rs2client"));
    assert_eq!(hit, Some(2));
    let addr = probe_address(&maps[2]).expect("probe fits");
    assert_eq!(addr, 0x8000 + 0x6000 / 2);
}

#[test]
fn fuzzy_module_miss_is_none() {
    let maps = vec![
        MapEntry { start: 0x1000, size: 0x2000, path: bytes("/system/lib/libc.so") },
        MapEntry { start: 0x4000, size: 0x1000, path: bytes("") },
    ];
    assert_eq!(find_module_fuzzy(&maps, &bytes("no.such.module")), None);
}

#[test]
fn probe_address_overflow_is_none() {
    let entry = MapEntry { start: usize::MAX, size: 4, path: bytes("x") };
    assert_eq!(probe_address(&entry), None);
    let entry2 = MapEntry { start: usize::MAX - 2, size: 4, path: bytes("x") };
    assert_eq!(probe_address(&entry2), Some(usize::MAX));
}

#[test]
fn resolve_hit_takes_first_entry() {
    let symbols = vec![
        SymbolEntry { name: bytes("eglGetDisplay"), addr: 0x100 },
        SymbolEntry { name: bytes("eglSwapBuffers"), addr: 0x200 },
        SymbolEntry { name: bytes("eglSwapBuffers"), addr: 0x300 },
    ];
    assert_eq!(resolve(&symbols, &bytes("eglSwapBuffers")), Some(0x200));
}

#[test]
fn resolve_miss_is_nonfatal_none() {
    let symbols = vec![
        SymbolEntry { name: bytes("eglGetDisplay"), addr: 0x100 },
        SymbolEntry { name: bytes("eglSwapBuffers"), addr: 0x200 },
    ];
    assert_eq!(resolve(&symbols, &bytes("definitely_absent_symbol")), None);
    assert_eq!(resolve(&Vec::new(), &bytes("eglSwapBuffers")), None);
}

#[test]
fn install_succeeds_and_keeps_trampoline() {
    let mut hook = HookInstaller::new(bytes("eglSwapBuffers"));
    assert!(hook.needs_install());
    assert_eq!(hook.trampoline(), None);
    let r = hook.install(PatchOutcome::Patched { trampoline: 0x200 });
    assert_eq!(r, Ok(0x200));
    assert!(!hook.needs_install());
    assert_eq!(hook.trampoline(), Some(0x200));
}

#[test]
fn second_install_is_rejected() {
    let mut hook = HookInstaller::new(bytes("wglSwapBuffers"));
    assert_eq!(hook.install(PatchOutcome::Patched { trampoline: 0x200 }), Ok(0x200));
    let second = hook.install(PatchOutcome::Patched { trampoline: 0x999 });
    assert_eq!(second, Err(InstallError::AlreadyInstalled));
    assert_eq!(hook.trampoline(), Some(0x200));
}

#[test]
fn failed_patch_leaves_nothing_installed() {
    let mut hook = HookInstaller::new(bytes("eglSwapBuffers"));
    assert_eq!(
        hook.install(PatchOutcome::WriteProtectDenied),
        Err(InstallError::WriteProtect)
    );
    assert!(hook.needs_install());
    assert_eq!(
        hook.install(PatchOutcome::PrologueUnsupported),
        Err(InstallError::DetourConstruction)
    );
    assert_eq!(
        hook.install(PatchOutcome::Patched { trampoline: 0 }),
        Err(InstallError::DetourConstruction)
    );
    assert_eq!(hook.trampoline(), None);
    assert_eq!(hook.install(PatchOutcome::Patched { trampoline: 0x42 }), Ok(0x42));
    assert_eq!(hook.trampoline(), Some(0x42));
}

#[test]
fn resolution_miss_never_installs() {
    let mut hook = HookInstaller::new(bytes("eglSwapBuffers"));
    let r = hook.install_resolved(None, PatchOutcome::Patched { trampoline: 0x200 });
    assert_eq!(r, Err(InstallError::NotFound));
    assert!(hook.needs_install());
    assert_eq!(hook.trampoline(), None);
    let r2 = hook.install_resolved(Some(0x200), PatchOutcome::Patched { trampoline: 0x200 });
    assert_eq!(r2, Ok(0x200));
}

#[test]
fn lazy_init_runs_once() {
    let mut mgr = OverlayManager::new();
    assert!(!mgr.is_initialized());
    assert_eq!(mgr.construction_count(), 0);
    assert_eq!(mgr.ensure_initialized(0x1111, good_probe()), Ok(()));
    assert!(mgr.is_initialized());
    assert_eq!(mgr.construction_count(), 1);
    assert_eq!(mgr.render_context(), Some(0x5000));

    let other = InitProbe { width: None, height: None, new_ctx: None, engine: None };
    assert_eq!(mgr.ensure_initialized(0x2222, other), Ok(()));
    assert_eq!(mgr.construction_count(), 1);
    assert_eq!(mgr.render_context(), Some(0x5000));
}

#[test]
fn dimension_query_failure_is_reported() {
    let mut mgr = OverlayManager::new();
    let mut probe = good_probe();
    probe.width = None;
    assert_eq!(mgr.ensure_initialized(0x1111, probe), Err(InitError::DimensionQuery));
    let mut probe2 = good_probe();
    probe2.height = None;
    assert_eq!(mgr.ensure_initialized(0x1111, probe2), Err(InitError::DimensionQuery));
    assert!(!mgr.is_initialized());
    assert_eq!(mgr.construction_count(), 0);
    assert_eq!(mgr.ensure_initialized(0x1111, good_probe()), Ok(()));
    assert_eq!(mgr.construction_count(), 1);
}

#[test]
fn other_construction_failures_are_reported() {
    let mut mgr = OverlayManager::new();
    assert_eq!(
        mgr.ensure_initialized(0, good_probe()),
        Err(InitError::NoHostContext)
    );
    let mut probe = good_probe();
    probe.new_ctx = None;
    assert_eq!(mgr.ensure_initialized(0x1111, probe), Err(InitError::ContextCreation));
    let mut probe2 = good_probe();
    probe2.new_ctx = Some(0);
    assert_eq!(mgr.ensure_initialized(0x1111, probe2), Err(InitError::ContextCreation));
    let mut probe3 = good_probe();
    probe3.engine = None;
    assert_eq!(mgr.ensure_initialized(0x1111, probe3), Err(InitError::EngineCreation));
    assert!(!mgr.is_initialized());
}

#[test]
fn render_frame_merges_and_clears() {
    let mut mgr = OverlayManager::new();
    assert_eq!(mgr.ensure_initialized(0x1111, good_probe()), Ok(()));
    let job = mgr.render_frame(vec![10, 11, 12], vec![90, 91]);
    assert_eq!(job.primitives, vec![10, 11, 12]);
    assert_eq!(job.textures, vec![90, 91]);
    assert_eq!(job.width, 800);
    assert_eq!(job.height, 600);
    // drawing is destructive: the second frame carries only its own output
    let job2 = mgr.render_frame(vec![20], vec![92]);
    assert_eq!(job2.primitives, vec![20]);
    assert_eq!(job2.textures, vec![92]);
}

#[test]
fn intercepted_frame_scenario() {
    // stub original at 0x200 returns 1 on success; surface is 800x600
    let mut hook = HookInstaller::new(bytes("eglSwapBuffers"));
    assert_eq!(hook.install(PatchOutcome::Patched { trampoline: 0x200 }), Ok(0x200));
    let mut mgr = OverlayManager::new();
    let mut gfx = Gfx { current: 0x1111 };

    let plan = intercept_frame(
        &mut mgr,
        &hook,
        &mut gfx,
        0xd15,
        0x5f,
        good_probe(),
        vec![1, 2, 3],
        vec![40],
    )
    .expect("first frame");

    // (a) exactly one overlay frame's worth of draw primitives
    assert_eq!(plan.job.primitives, vec![1, 2, 3]);
    assert_eq!(plan.job.textures, vec![40]);
    assert_eq!(plan.job.width, 800);
    assert_eq!(plan.job.height, 600);
    assert_eq!(mgr.construction_count(), 1);
    assert_eq!(
        plan.actions,
        vec![
            FrameAction::MakeCurrent { ctx: 0x5000 },
            FrameAction::PaintOverlay,
            FrameAction::MakeCurrent { ctx: 0x1111 },
            FrameAction::ForwardOriginal { target: 0x200, display: 0xd15, surface: 0x5f },
        ]
    );
    assert_eq!(
        plan.forward,
        ForwardCall { target: 0x200, display: 0xd15, surface: 0x5f }
    );
    // (b) the stub original's result is returned unchanged
    assert_eq!(complete_frame(&plan.forward, 1), 1);
    // context restoration: the caller sees the context it had before
    assert_eq!(gfx.current, 0x1111);

    // (c) a second call does not re-run construction
    let plan2 = intercept_frame(
        &mut mgr,
        &hook,
        &mut gfx,
        0xd15,
        0x5f,
        InitProbe { width: None, height: None, new_ctx: None, engine: None },
        vec![4],
        Vec::new(),
    )
    .expect("second frame");
    assert_eq!(mgr.construction_count(), 1);
    assert_eq!(plan2.job.primitives, vec![4]);
    assert_eq!(plan2.job.textures, Vec::<u64>::new());
    assert_eq!(gfx.current, 0x1111);
}

#[test]
fn failed_first_frame_leaves_manager_untouched() {
    let mut hook = HookInstaller::new(bytes("eglSwapBuffers"));
    assert_eq!(hook.install(PatchOutcome::Patched { trampoline: 0x200 }), Ok(0x200));
    let mut mgr = OverlayManager::new();
    let mut gfx = Gfx { current: 0x1111 };
    let probe = InitProbe { width: None, height: Some(600), new_ctx: Some(1), engine: Some(1) };
    let r = intercept_frame(&mut mgr, &hook, &mut gfx, 1, 2, probe, Vec::new(), Vec::new());
    assert!(matches!(r, Err(InitError::DimensionQuery)));
    assert!(!mgr.is_initialized());
    assert_eq!(mgr.construction_count(), 0);
    assert_eq!(gfx.current, 0x1111);
}
