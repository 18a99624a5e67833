use kahlberg::frame::{plan_frame, scene_draw, FrameStep, SceneDraw};
use kahlberg::geometry::{
    aligned_size, encode_indices, encode_words, scene_index_bytes, scene_indices,
};

fn position(p: &[FrameStep], s: FrameStep) -> usize {
    p.iter().position(|x| *x == s).unwrap()
}

#[test]
fn first_frame_has_one_pass_one_submit_one_present() {
    let p = plan_frame(1, 0, true);
    assert_eq!(
        p,
        vec![
            FrameStep::UploadTexture(0),
            FrameStep::UpdateOverlayBuffers,
            FrameStep::BeginPass,
            FrameStep::DrawScene(SceneDraw::Indexed { index_count: 3 }),
            FrameStep::DrawOverlay,
            FrameStep::EndPass,
            FrameStep::Submit,
            FrameStep::Present,
        ]
    );
    assert_eq!(p.iter().filter(|s| **s == FrameStep::Submit).count(), 1);
    assert_eq!(p.iter().filter(|s| **s == FrameStep::Present).count(), 1);
}

#[test]
fn uploads_before_pass_and_frees_after_submit() {
    let p = plan_frame(3, 2, true);
    let begin = position(&p, FrameStep::BeginPass);
    let submit = position(&p, FrameStep::Submit);
    for i in 0..3 {
        assert!(position(&p, FrameStep::UploadTexture(i)) < begin);
    }
    for i in 0..2 {
        assert!(position(&p, FrameStep::FreeTexture(i)) > submit);
    }
    assert_eq!(p.len(), 12);
}

#[test]
fn empty_texture_delta_plans_only_the_pass() {
    let p = plan_frame(0, 0, false);
    assert_eq!(p.len(), 7);
    assert_eq!(p[2], FrameStep::DrawScene(SceneDraw::Direct { vertex_count: 3 }));
}

#[test]
fn scene_draw_follows_capability() {
    assert_eq!(scene_draw(true), SceneDraw::Indexed { index_count: 3 });
    assert_eq!(scene_draw(false), SceneDraw::Direct { vertex_count: 3 });
}

#[test]
fn words_are_little_endian() {
    let b = encode_words(&vec![0x0403_0201, 0xFFFF_FFFF]);
    assert_eq!(b, vec![1, 2, 3, 4, 0xFF, 0xFF, 0xFF, 0xFF]);
}

#[test]
fn float_bits_round_trip_through_encoding() {
    let data: [f32; 8] = [1.0, -1.0, 0.0, 1.0, 1.0, 0.0, 0.0, 1.0];
    let bits: Vec<u32> = data.iter().map(|f| f.to_bits()).collect();
    let b = encode_words(&bits);
    assert_eq!(b.len(), 32);
    let mut expected = Vec::new();
    for f in data {
        expected.extend_from_slice(&f.to_le_bytes());
    }
    assert_eq!(b, expected);
}

#[test]
fn indices_are_padded_to_size() {
    assert_eq!(encode_indices(&vec![0x0102, 3], 8), vec![2, 1, 3, 0, 0, 0, 0, 0]);
    assert_eq!(encode_indices(&vec![], 0), Vec::<u8>::new());
}

#[test]
fn scene_index_buffer_bytes() {
    assert_eq!(scene_indices(), vec![0u16, 1, 2]);
    assert_eq!(scene_index_bytes(), vec![0, 0, 1, 0, 2, 0, 0, 0]);
}

#[test]
fn sizes_round_up_to_alignment() {
    assert_eq!(aligned_size(0), 0);
    assert_eq!(aligned_size(6), 8);
    assert_eq!(aligned_size(96), 96);
    assert_eq!(aligned_size(u64::MAX - 3), u64::MAX - 3);
}
