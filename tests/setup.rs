use triangle::init::{
    advance, failure_message, is_finished, next_stage, run_stages, start, InitStage, InitState,
};
use triangle::shader::{entry_point, load_spirv, stage_file_name, ShaderError, ShaderStage, SPIRV_MAGIC};
use triangle::vertex::{
    triangle, vertex_bytes, vertex_words, AttributeFormat, StepMode, Vertex, HALF_BITS,
    MINUS_HALF_BITS, ONE_BITS, ZERO_BITS,
};

#[test]
fn float_bit_patterns() {
    assert_eq!(ZERO_BITS, 0.0f32.to_bits());
    assert_eq!(HALF_BITS, 0.5f32.to_bits());
    assert_eq!(MINUS_HALF_BITS, (-0.5f32).to_bits());
    assert_eq!(ONE_BITS, 1.0f32.to_bits());
}

#[test]
fn vertex_layout_is_packed() {
    let d = Vertex::desc();
    assert_eq!(d.stride, 24);
    assert_eq!(d.step_mode, StepMode::Vertex);
    assert_eq!(d.attributes.len(), 2);
    assert_eq!(d.attributes[0].offset, 0);
    assert_eq!(d.attributes[0].shader_location, 0);
    assert_eq!(d.attributes[1].offset, 12);
    assert_eq!(d.attributes[1].shader_location, 1);
    assert_eq!(d.attributes[1].format, AttributeFormat::Float3);
}

#[test]
fn triangle_words() {
    let t = triangle();
    let w = vertex_words(&t);
    let expected: Vec<f32> = vec![
        0.0, 0.5, 0.0, 1.0, 0.0, 0.0, -0.5, -0.5, 0.0, 0.0, 1.0, 0.0, 0.5, -0.5, 0.0, 0.0, 0.0, 1.0,
    ];
    let got: Vec<f32> = w.iter().map(|b| f32::from_bits(*b)).collect();
    assert_eq!(got, expected);
}

#[test]
fn triangle_bytes() {
    let t = triangle();
    let b = vertex_bytes(&t);
    assert_eq!(b.len(), 72);
    assert_eq!(&b[0..4], &0.0f32.to_ne_bytes());
    assert_eq!(&b[4..8], &0.5f32.to_ne_bytes());
    assert_eq!(&b[12..16], &1.0f32.to_ne_bytes());
    assert_eq!(&b[24..28], &(-0.5f32).to_ne_bytes());
    assert_eq!(&b[68..72], &1.0f32.to_ne_bytes());
    assert!(vertex_bytes(&Vec::new()).is_empty());
    let le: Vec<u8> = vertex_words(&t).iter().flat_map(|w| w.to_le_bytes()).collect();
    let be: Vec<u8> = vertex_words(&t).iter().flat_map(|w| w.to_be_bytes()).collect();
    assert!(b == le || b == be);
    let ne: Vec<u8> = vertex_words(&t).iter().flat_map(|w| w.to_ne_bytes()).collect();
    assert_eq!(b, ne);
}

#[test]
fn spirv_little_endian() {
    let bytes: Vec<u8> = vec![0x03, 0x02, 0x23, 0x07, 0x01, 0x00, 0x00, 0x00, 0x10, 0x20, 0x30, 0x40];
    assert_eq!(load_spirv(&bytes), Ok(vec![SPIRV_MAGIC, 1, 0x4030_2010]));
}

#[test]
fn spirv_big_endian() {
    let bytes: Vec<u8> = vec![0x07, 0x23, 0x02, 0x03, 0x00, 0x00, 0x00, 0x01, 0x10, 0x20, 0x30, 0x40];
    assert_eq!(load_spirv(&bytes), Ok(vec![SPIRV_MAGIC, 1, 0x1020_3040]));
}

#[test]
fn spirv_rejects_bad_input() {
    assert_eq!(load_spirv(&Vec::new()), Err(ShaderError::InvalidSpirv));
    assert_eq!(load_spirv(&vec![0x03, 0x02, 0x23, 0x07, 0x00]), Err(ShaderError::InvalidSpirv));
    assert_eq!(load_spirv(&vec![0x00, 0x02, 0x23, 0x07]), Err(ShaderError::InvalidSpirv));
    assert_eq!(load_spirv(&b"#version 450".to_vec()), Err(ShaderError::InvalidSpirv));
}

#[test]
fn shader_names() {
    assert_eq!(stage_file_name(ShaderStage::Vertex), "shader.vert");
    assert_eq!(stage_file_name(ShaderStage::Fragment), "shader.frag");
    assert_eq!(entry_point(), "main");
}

fn run(outcomes: &[bool]) -> InitState {
    let mut st = start();
    for ok in outcomes {
        st = advance(st, *ok);
    }
    st
}

#[test]
fn init_succeeds_after_every_stage() {
    let st = run(&[true; 9]);
    assert_eq!(st, InitState::Ready);
    assert!(is_finished(st));
    assert_eq!(next_stage(InitStage::UploadVertices), None);
}

#[test]
fn shader_compile_failure_aborts_before_pipeline() {
    let st = run(&[true, true, true, true, false, true, true, true, true]);
    assert_eq!(st, InitState::Failed { stage: InitStage::CompileVertexShader });
    let st = run(&[true, true, true, true, true, false, true, true, true]);
    assert_eq!(st, InitState::Failed { stage: InitStage::CompileFragmentShader });
    assert!(is_finished(st));
    assert_eq!(failure_message(InitStage::CompileFragmentShader), "Failed to compile the fragment shader");
}

#[test]
fn adapter_failure_stops_init() {
    let st = run(&[true, false]);
    assert_eq!(st, InitState::Failed { stage: InitStage::RequestAdapter });
    assert_eq!(failure_message(InitStage::RequestAdapter), "Failed to request adapter");
    let st = run(&[true, true, true]);
    assert_eq!(st, InitState::Running { stage: InitStage::CreateSwapChain });
    assert!(!is_finished(st));
}

#[test]
fn run_stages_stops_at_first_failure() {
    let compile_fails = vec![true, true, true, true, false, true, true, true, true];
    assert_eq!(run_stages(&compile_fails), InitState::Failed { stage: InitStage::CompileVertexShader });
    let fragment_fails = vec![true, true, true, true, true, false, false];
    assert_eq!(run_stages(&fragment_fails), InitState::Failed { stage: InitStage::CompileFragmentShader });
    assert_eq!(run_stages(&vec![true; 9]), InitState::Ready);
    assert_eq!(run_stages(&vec![true; 12]), InitState::Ready);
    assert_eq!(run_stages(&Vec::new()), InitState::Running { stage: InitStage::CreateSurface });
    assert_eq!(run_stages(&vec![true; 8]), InitState::Running { stage: InitStage::UploadVertices });
}
