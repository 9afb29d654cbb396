use glshader::driver::Driver;
use glshader::glsl::{GlslSpec, Judge};
use glshader::mat4::Mat4;
use glshader::shader::{CompileError, Debug_Shader, Release_Shader, Shaderable};
use glshader::store::{SourceFile, SourceStore};
use glshader::{UniformValue, NO_UNIFORM};

const VS: &str = "#version 330 core\nuniform mat4 proj;\nuniform int mode;\nuniform float alpha;\nvoid main() { gl_Position = proj * vec4(0.0); }";
const FS: &str = "#version 330 core\nuniform sampler2D tex0;\nout vec4 c;\nvoid main() { c = vec4(1.0); }";
const VS2: &str = "#version 330 core\nuniform mat4 wvp;\nvoid main() { gl_Position = wvp * vec4(0.0); }";
const BAD: &str = "void main() { unterminated";

fn test_judge() -> Judge {
    Judge {
        accepted: vec![
            GlslSpec {
                source: VS.to_string(),
                uniforms: vec!["proj".to_string(), "mode".to_string(), "alpha".to_string()],
            },
            GlslSpec {
                source: FS.to_string(),
                uniforms: vec!["tex0".to_string()],
            },
            GlslSpec {
                source: VS2.to_string(),
                uniforms: vec!["wvp".to_string()],
            },
        ],
        bad_links: vec![],
    }
}

fn file_store() -> SourceStore {
    let mut store = SourceStore::new();
    store.set_file("data/shaders/ui.vert", 100, Some(VS.to_string()));
    store.set_file("data/shaders/ui.frag", 100, Some(FS.to_string()));
    store
}

#[test]
fn store_rewrite_shadows_earlier_observation() {
    let mut store = SourceStore::new();
    store.set_file("a.vert", 10, Some("one".to_string()));
    store.set_file("b.vert", 20, Some("other".to_string()));
    store.set_file("a.vert", 30, Some("two".to_string()));
    assert_eq!(store.stat("a.vert"), 30);
    assert_eq!(store.read("a.vert"), Some("two".to_string()));
    assert_eq!(store.stat("b.vert"), 20);
    assert_eq!(store.stat("missing.vert"), 0);
    assert_eq!(store.read("missing.vert"), None);
}

#[test]
fn resolution_is_idempotent() {
    let mut d = Driver::new();
    let judge = test_judge();
    let shader = Release_Shader::new(&mut d, &judge, VS, FS);
    let first = shader.get_uniform_location(&d, "proj");
    let second = shader.get_uniform_location(&d, "proj");
    assert_ne!(first, NO_UNIFORM);
    assert_eq!(first, second);
}

#[test]
fn absent_uniform_resolves_to_sentinel_without_error() {
    let mut d = Driver::new();
    let judge = test_judge();
    let shader = Release_Shader::new(&mut d, &judge, VS, FS);
    assert_eq!(shader.get_uniform_location(&d, "no_such_uniform"), NO_UNIFORM);
    // Uploading to the sentinel is a silent no-op, not an error.
    shader.bind(&mut d);
    shader.update_uniform_i32(&mut d, NO_UNIFORM, 7);
    assert!(d.get_uniform_value(shader.core.prog, NO_UNIFORM).is_none());
}

#[test]
fn int_and_scalar_uploads_read_back_exactly() {
    let mut d = Driver::new();
    let judge = test_judge();
    let shader = Release_Shader::new(&mut d, &judge, VS, FS);
    shader.bind(&mut d);
    let mode = shader.get_uniform_location(&d, "mode");
    let alpha = shader.get_uniform_location(&d, "alpha");
    let tex0 = shader.get_uniform_location(&d, "tex0");
    assert_ne!(mode, NO_UNIFORM);
    assert_ne!(alpha, NO_UNIFORM);
    assert_ne!(tex0, NO_UNIFORM);

    shader.update_uniform_i32(&mut d, mode, 3);
    shader.update_uniform_i32(&mut d, tex0, 0);
    let a: f32 = 0.25;
    shader.update_uniform_f32(&mut d, alpha, a.to_bits());

    assert_eq!(
        d.get_uniform_value(shader.core.prog, mode),
        Some(&UniformValue::Int(3))
    );
    assert_eq!(
        d.get_uniform_value(shader.core.prog, tex0),
        Some(&UniformValue::Int(0))
    );
    match d.get_uniform_value(shader.core.prog, alpha) {
        Some(UniformValue::Scalar(bits)) => assert_eq!(f32::from_bits(*bits), 0.25),
        other => panic!("expected a scalar upload, got {:?}", other),
    }
}

#[test]
fn matrix_upload_round_trips_bit_for_bit() {
    let mut d = Driver::new();
    let judge = test_judge();
    let shader = Release_Shader::new(&mut d, &judge, VS, FS);
    shader.bind(&mut d);
    let proj = shader.get_uniform_location(&d, "proj");
    assert_ne!(proj, NO_UNIFORM);

    // An orthographic-like transform with distinct, non-trivial entries.
    let rows_f: [[f32; 4]; 4] = [
        [2.0 / 800.0, 0.0, 0.0, -1.0],
        [0.0, -2.0 / 600.0, 0.0, 1.0],
        [0.0, 0.0, -0.02020202, -1.0202020],
        [0.0, 0.0, 0.0, 1.0],
    ];
    let mut rows: [[u32; 4]; 4] = [[0; 4]; 4];
    for r in 0..4 {
        for c in 0..4 {
            rows[r][c] = rows_f[r][c].to_bits();
        }
    }
    let m = Mat4::new(rows);
    shader.update_uniform_mat(&mut d, proj, &m);

    match d.get_uniform_value(shader.core.prog, proj) {
        Some(UniformValue::Matrix(flat)) => {
            // The flat order is row-major: row r, column c at index 4*r + c.
            for r in 0..4 {
                for c in 0..4 {
                    assert_eq!(flat[4 * r + c], rows[r][c]);
                }
            }
            let back = Mat4::from_flat(flat);
            assert_eq!(back, m);
        }
        other => panic!("expected a matrix upload, got {:?}", other),
    }
}

#[test]
fn monitored_reload_on_valid_rewrite_recompiles_once() {
    let mut d = Driver::new();
    let judge = test_judge();
    let mut store = file_store();
    let mut shader = Debug_Shader::new_with_files(
        &mut d,
        &judge,
        &store,
        "data/shaders/ui.vert",
        "data/shaders/ui.frag",
    );
    assert!(shader.valid);
    let programs_before = d.programs.len();

    // Rewrite the vertex file with valid new source and advance its time.
    store.set_file("data/shaders/ui.vert", 200, Some(VS2.to_string()));
    shader.bind(&mut d, &judge, &store);

    assert!(shader.valid);
    // Exactly one rebuild: one new program object.
    assert_eq!(d.programs.len(), programs_before + 1);
    // The rebuilt program reflects the new source's uniforms.
    assert_ne!(shader.get_uniform_location(&d, "wvp"), NO_UNIFORM);
    assert_eq!(shader.get_uniform_location(&d, "proj"), NO_UNIFORM);
    assert_eq!(d.bound, shader.core.prog);
}

#[test]
fn monitored_reload_on_invalid_rewrite_goes_invalid_and_keeps_binding() {
    let mut d = Driver::new();
    let judge = test_judge();
    let mut store = file_store();
    let mut shader = Debug_Shader::new_with_files(
        &mut d,
        &judge,
        &store,
        "data/shaders/ui.vert",
        "data/shaders/ui.frag",
    );
    shader.bind(&mut d, &judge, &store);
    let bound_before = d.bound;
    assert_ne!(bound_before, 0);

    store.set_file("data/shaders/ui.vert", 300, Some(BAD.to_string()));
    shader.bind(&mut d, &judge, &store);

    assert!(!shader.valid);
    // The binding is deliberately left as it was.
    assert_eq!(d.bound, bound_before);
    // And the invalid entity resolves nothing.
    assert_eq!(shader.get_uniform_location(&d, "proj"), NO_UNIFORM);
}

#[test]
fn monitored_untouched_files_recompile_nothing() {
    let mut d = Driver::new();
    let judge = test_judge();
    let store = file_store();
    let mut shader = Debug_Shader::new_with_files(
        &mut d,
        &judge,
        &store,
        "data/shaders/ui.vert",
        "data/shaders/ui.frag",
    );
    shader.bind(&mut d, &judge, &store);
    let programs_before = d.programs.len();
    let shaders_before = d.shaders.len();
    shader.bind(&mut d, &judge, &store);
    shader.bind(&mut d, &judge, &store);
    assert_eq!(d.programs.len(), programs_before);
    assert_eq!(d.shaders.len(), shaders_before);
    assert!(shader.valid);
}

#[test]
fn monitored_recovers_after_next_valid_rewrite() {
    let mut d = Driver::new();
    let judge = test_judge();
    let mut store = file_store();
    let mut shader = Debug_Shader::new_with_files(
        &mut d,
        &judge,
        &store,
        "data/shaders/ui.vert",
        "data/shaders/ui.frag",
    );
    store.set_file("data/shaders/ui.vert", 200, Some(BAD.to_string()));
    shader.bind(&mut d, &judge, &store);
    assert!(!shader.valid);

    store.set_file("data/shaders/ui.vert", 201, Some(VS.to_string()));
    shader.bind(&mut d, &judge, &store);
    assert!(shader.valid);
    assert_eq!(d.bound, shader.core.prog);
}

#[test]
fn monitored_from_literal_sources_never_reloads() {
    let mut d = Driver::new();
    let judge = test_judge();
    let store = SourceStore::new();
    let mut shader = Debug_Shader::new(&mut d, &judge, VS, FS);
    let programs_before = d.programs.len();
    shader.bind(&mut d, &judge, &store);
    shader.bind(&mut d, &judge, &store);
    assert_eq!(d.programs.len(), programs_before);
    assert!(shader.valid);
    assert_eq!(d.bound, shader.core.prog);
}

#[test]
fn literal_source_shader_ignores_empty_path_store_entries() {
    // A literal-source entity tracks no files: both recorded paths are
    // empty. Even a store holding an entry under the empty path (which
    // `set_file` refuses, so it is built directly here) must not make such
    // an entity reload: the empty path always observes as absent.
    let mut d = Driver::new();
    let judge = test_judge();
    let store = SourceStore {
        files: vec![SourceFile {
            path: String::new(),
            mtime: 999,
            contents: None,
        }],
    };
    let mut shader = Debug_Shader::new(&mut d, &judge, VS, FS);
    let programs_before = d.programs.len();
    shader.bind(&mut d, &judge, &store);
    shader.bind(&mut d, &judge, &store);
    assert!(shader.valid);
    assert_eq!(d.programs.len(), programs_before);
    assert_eq!(d.bound, shader.core.prog);
}

#[test]
fn unreadable_file_reports_source_read_error() {
    let mut d = Driver::new();
    let judge = test_judge();
    let mut store = file_store();
    store.set_file("data/shaders/ui.frag", 100, None);
    let r = Debug_Shader::try_new_with_files(
        &mut d,
        &judge,
        &store,
        "data/shaders/ui.vert",
        "data/shaders/ui.frag",
    );
    match r {
        Err(CompileError::SourceRead { path }) => assert_eq!(path, "data/shaders/ui.frag"),
        other => panic!("expected a source read failure, got {:?}", other),
    }
}

#[test]
fn unreadable_file_on_reload_goes_invalid_without_touching_driver() {
    let mut d = Driver::new();
    let judge = test_judge();
    let mut store = file_store();
    let mut shader = Debug_Shader::new_with_files(
        &mut d,
        &judge,
        &store,
        "data/shaders/ui.vert",
        "data/shaders/ui.frag",
    );
    shader.bind(&mut d, &judge, &store);
    let bound_before = d.bound;
    let programs_before = d.programs.len();

    store.set_file("data/shaders/ui.vert", 400, None);
    shader.bind(&mut d, &judge, &store);

    assert!(!shader.valid);
    assert_eq!(d.bound, bound_before);
    assert_eq!(d.programs.len(), programs_before);
}

fn drive<S: Shaderable>(s: &mut S, d: &mut Driver, judge: &Judge, store: &SourceStore) -> i32 {
    Shaderable::bind(s, d, judge, store);
    let loc = Shaderable::get_uniform_location(s, d, "mode");
    Shaderable::update_uniform_i32(s, d, loc, 9);
    loc
}

#[test]
fn variants_are_interchangeable_through_the_trait() {
    let mut d = Driver::new();
    let judge = test_judge();
    let store = file_store();

    let mut frozen = Release_Shader::new(&mut d, &judge, VS, FS);
    let mut monitored = Debug_Shader::new_with_files(
        &mut d,
        &judge,
        &store,
        "data/shaders/ui.vert",
        "data/shaders/ui.frag",
    );

    let l1 = drive(&mut frozen, &mut d, &judge, &store);
    let l2 = drive(&mut monitored, &mut d, &judge, &store);
    assert_eq!(l1, l2);
    assert_ne!(l1, NO_UNIFORM);
}

#[test]
fn release_from_files_matches_literal_construction() {
    let mut d = Driver::new();
    let judge = test_judge();
    let store = file_store();
    let from_files = Release_Shader::new_with_files(
        &mut d,
        &judge,
        &store,
        "data/shaders/ui.vert",
        "data/shaders/ui.frag",
    );
    let from_source = Release_Shader::new(&mut d, &judge, VS, FS);
    assert_eq!(
        from_files.get_uniform_location(&d, "tex0"),
        from_source.get_uniform_location(&d, "tex0")
    );
}
