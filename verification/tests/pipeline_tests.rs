use glshader::driver::Driver;
use glshader::glsl::{GlslSpec, Judge};
use glshader::shader::{bind, load, CompileError, ProgramHandles};
use glshader::Stage;

const VS: &str = "#version 330 core\nuniform mat4 proj;\nvoid main() { gl_Position = proj * vec4(0.0); }";
const FS: &str = "#version 330 core\nuniform sampler2D tex0;\nout vec4 c;\nvoid main() { c = vec4(1.0); }";
const BAD: &str = "#version 330 core\nvoid main() { this does not parse";

fn test_judge() -> Judge {
    Judge {
        accepted: vec![
            GlslSpec {
                source: VS.to_string(),
                uniforms: vec!["proj".to_string(), "world".to_string()],
            },
            GlslSpec {
                source: FS.to_string(),
                uniforms: vec!["tex0".to_string(), "color0".to_string()],
            },
        ],
        bad_links: vec![],
    }
}

fn fresh_handles() -> ProgramHandles {
    ProgramHandles { prog: 0, vert_obj: 0, frag_obj: 0 }
}

#[test]
fn valid_pair_links_with_nonzero_program() {
    let mut d = Driver::new();
    let judge = test_judge();
    let mut h = fresh_handles();
    let r = load(&mut d, &judge, &mut h, VS, FS);
    assert!(r.is_ok());
    assert_ne!(h.prog, 0);
    assert_ne!(h.vert_obj, 0);
    assert_ne!(h.frag_obj, 0);
    assert!(d.get_link_status(h.prog));
}

#[test]
fn vertex_syntax_error_fails_and_never_activates() {
    let mut d = Driver::new();
    let judge = test_judge();
    let mut h = fresh_handles();
    let r = load(&mut d, &judge, &mut h, BAD, FS);
    match r {
        Err(CompileError::StageCompile { stage, log }) => {
            assert_eq!(stage, Stage::Vertex);
            assert!(!log.is_empty());
        }
        other => panic!("expected a vertex stage failure, got {:?}", other),
    }
    // The program object exists but is not linked, so a bind attempt must
    // leave the previous binding (here: nothing) in place.
    assert_ne!(h.prog, 0);
    assert!(!d.get_link_status(h.prog));
    bind(&mut d, &h);
    assert_eq!(d.bound, 0);
}

#[test]
fn fragment_syntax_error_fails_and_never_activates() {
    let mut d = Driver::new();
    let judge = test_judge();

    // First build a good program and bind it, so the failed build can show
    // that the binding is left exactly as it was.
    let mut good = fresh_handles();
    assert!(load(&mut d, &judge, &mut good, VS, FS).is_ok());
    bind(&mut d, &good);
    assert_eq!(d.bound, good.prog);

    let mut h = fresh_handles();
    let r = load(&mut d, &judge, &mut h, VS, BAD);
    match r {
        Err(CompileError::StageCompile { stage, .. }) => assert_eq!(stage, Stage::Fragment),
        other => panic!("expected a fragment stage failure, got {:?}", other),
    }
    assert!(!d.get_link_status(h.prog));
    bind(&mut d, &h);
    assert_eq!(d.bound, good.prog);
}

#[test]
fn link_failure_zeroes_program_and_surfaces_log() {
    let mut d = Driver::new();
    let mut judge = test_judge();
    judge.bad_links.push((VS.to_string(), FS.to_string()));
    let mut h = fresh_handles();
    let r = load(&mut d, &judge, &mut h, VS, FS);
    match r {
        Err(CompileError::Link { log }) => assert!(!log.is_empty()),
        other => panic!("expected a link failure, got {:?}", other),
    }
    assert_eq!(h.prog, 0);
}

#[test]
fn empty_fragment_stage_is_skipped_and_still_links() {
    let mut d = Driver::new();
    let judge = test_judge();
    let mut h = fresh_handles();
    let r = load(&mut d, &judge, &mut h, VS, "");
    assert!(r.is_ok());
    assert_ne!(h.prog, 0);
    assert_ne!(h.vert_obj, 0);
    assert_eq!(h.frag_obj, 0);
    assert!(d.get_link_status(h.prog));
    // Only the vertex stage's uniforms are in the table.
    assert_ne!(d.get_uniform_location(h.prog, "proj"), -1);
    assert_eq!(d.get_uniform_location(h.prog, "tex0"), -1);
}

#[test]
fn duplicate_judge_entries_first_governs() {
    let mut d = Driver::new();
    let mut judge = test_judge();
    judge.accepted.push(GlslSpec {
        source: VS.to_string(),
        uniforms: vec!["shadowed".to_string()],
    });
    let mut h = fresh_handles();
    assert!(load(&mut d, &judge, &mut h, VS, "").is_ok());
    assert_ne!(d.get_uniform_location(h.prog, "proj"), -1);
    assert_eq!(d.get_uniform_location(h.prog, "shadowed"), -1);
}

#[test]
fn rebuild_deletes_the_previous_program() {
    let mut d = Driver::new();
    let judge = test_judge();
    let mut h = fresh_handles();
    assert!(load(&mut d, &judge, &mut h, VS, FS).is_ok());
    let old_prog = h.prog;
    assert!(load(&mut d, &judge, &mut h, VS, FS).is_ok());
    assert_ne!(h.prog, old_prog);
    assert!(!d.is_program(old_prog));
}
