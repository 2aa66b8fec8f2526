use advance_wgpu::bytes::{indices_as_bytes, words_as_bytes, ByteOrder};
use advance_wgpu::events::{event_action, EventAction, WindowEventKind};
use advance_wgpu::frame::{
    blur_load_action, loop_frame, plan_view_passes, update_backdrop, Backdrop, Binding, Geometry,
    LoadAction, PassKind, RenderPassPlan, SampledTexture, Surface, LENGTH_FRAME,
    QUAD_VERTEX_COUNT,
};
use advance_wgpu::geometry::{circle_fan_indices, circle_index_count, CIRCLE_SEGMENTS};
use advance_wgpu::layout::{
    instance_attributes, pipeline_state, vertex_attribute, AttributeSlot, BlendComponent,
    BlendFactor, Pipeline, Topology, INSTANCE_STRIDE,
};

fn native_order() -> ByteOrder {
    if 1u16.to_ne_bytes()[0] == 1 {
        ByteOrder::Little
    } else {
        ByteOrder::Big
    }
}

#[test]
fn fan_of_three_segments() {
    assert_eq!(circle_fan_indices(3), vec![0, 1, 2, 0, 2, 3, 0, 3, 1]);
}

#[test]
fn fan_of_one_segment_closes_on_itself() {
    assert_eq!(circle_fan_indices(1), vec![0, 1, 1]);
}

#[test]
fn fan_of_no_segments_is_empty() {
    assert!(circle_fan_indices(0).is_empty());
    assert_eq!(circle_index_count(0), 0);
}

#[test]
fn sketch_disc_has_360_indices() {
    let indices = circle_fan_indices(CIRCLE_SEGMENTS);
    assert_eq!(CIRCLE_SEGMENTS, 120);
    assert_eq!(indices.len(), 360);
    assert_eq!(circle_index_count(CIRCLE_SEGMENTS), 360);
    // last triangle wraps back to the first rim vertex
    assert_eq!(&indices[357..], &[0, 120, 1]);
    // every index names the centre or a rim vertex
    assert!(indices.iter().all(|&i| i <= 120));
}

#[test]
fn fan_rim_vertices_shared_by_neighbours() {
    let n: u16 = 7;
    let indices = circle_fan_indices(n);
    for t in 0..(n as usize) {
        let next = (t + 1) % (n as usize);
        assert_eq!(indices[3 * t + 2], indices[3 * next + 1]);
    }
}

#[test]
fn largest_index_count() {
    assert_eq!(circle_index_count(21845), 65535);
}

#[test]
fn index_bytes_in_either_order() {
    assert_eq!(
        indices_as_bytes(&[0x1234, 0x00ff, 0xff00], ByteOrder::Little),
        vec![0x34, 0x12, 0xff, 0x00, 0x00, 0xff]
    );
    assert_eq!(
        indices_as_bytes(&[0x1234, 0x00ff, 0xff00], ByteOrder::Big),
        vec![0x12, 0x34, 0x00, 0xff, 0xff, 0x00]
    );
    assert_eq!(indices_as_bytes(&[1, 258], ByteOrder::Little), vec![1, 0, 2, 1]);
    assert_eq!(indices_as_bytes(&[1, 258], ByteOrder::Big), vec![0, 1, 1, 2]);
    assert!(indices_as_bytes(&[], ByteOrder::Big).is_empty());
}

#[test]
fn index_bytes_match_native_layout() {
    let data: Vec<u16> = circle_fan_indices(5);
    let native: Vec<u8> = data.iter().flat_map(|x| x.to_ne_bytes()).collect();
    assert_eq!(indices_as_bytes(&data, native_order()), native);
}

#[test]
fn word_bytes_in_either_order() {
    assert_eq!(
        words_as_bytes(&[0x1234_5678, 1], ByteOrder::Little),
        vec![0x78, 0x56, 0x34, 0x12, 1, 0, 0, 0]
    );
    assert_eq!(
        words_as_bytes(&[0x1234_5678, 1], ByteOrder::Big),
        vec![0x12, 0x34, 0x56, 0x78, 0, 0, 0, 1]
    );
    assert_eq!(words_as_bytes(&[u32::MAX], ByteOrder::Little), vec![0xff; 4]);
}

#[test]
fn big_order_mirrors_little_order_within_each_word() {
    let words: Vec<u32> = vec![0x0102_0304, 0xa0b0_c0d0, 7];
    let little = words_as_bytes(&words, ByteOrder::Little);
    let big = words_as_bytes(&words, ByteOrder::Big);
    for i in 0..words.len() {
        for j in 0..4 {
            assert_eq!(big[4 * i + j], little[4 * i + 3 - j]);
        }
    }
}

#[test]
fn word_bytes_of_floats_match_native_layout() {
    let floats: [f32; 5] = [1.0 / 884.0, 0.0, -2.5, 1280.0, 1.0];
    let words: Vec<u32> = floats.iter().map(|f| f.to_bits()).collect();
    let bytes = words_as_bytes(&words, native_order());
    assert_eq!(bytes.len(), 20);
    let native: Vec<u8> = floats.iter().flat_map(|f| f.to_ne_bytes()).collect();
    assert_eq!(bytes, native);
    for (i, f) in floats.iter().enumerate() {
        let b = [bytes[4 * i], bytes[4 * i + 1], bytes[4 * i + 2], bytes[4 * i + 3]];
        assert_eq!(f32::from_ne_bytes(b), *f);
    }
    let little = words_as_bytes(&words, ByteOrder::Little);
    let big = words_as_bytes(&words, ByteOrder::Big);
    for (i, f) in floats.iter().enumerate() {
        assert_eq!(&little[4 * i..4 * i + 4], &f.to_le_bytes());
        assert_eq!(&big[4 * i..4 * i + 4], &f.to_be_bytes());
    }
}

#[test]
fn loop_frame_wraps_every_420_frames() {
    assert_eq!(LENGTH_FRAME, 420);
    assert_eq!(loop_frame(0), 0);
    assert_eq!(loop_frame(419), 419);
    assert_eq!(loop_frame(420), 0);
    assert_eq!(loop_frame(1000), 160);
    assert_eq!(loop_frame(1000 + 420), loop_frame(1000));
    assert_eq!(loop_frame(u64::MAX), u64::MAX % 420);
}

#[test]
fn backdrop_black_on_first_frames_then_fade() {
    assert_eq!(update_backdrop(0), Backdrop::Black);
    assert_eq!(update_backdrop(1), Backdrop::Black);
    assert_eq!(update_backdrop(2), Backdrop::Fade);
    assert_eq!(update_backdrop(500), Backdrop::Fade);
}

#[test]
fn blur_clears_only_on_frame_one() {
    assert_eq!(blur_load_action(0), LoadAction::Load);
    assert_eq!(blur_load_action(1), LoadAction::ClearRed);
    assert_eq!(blur_load_action(2), LoadAction::Load);
}

fn present() -> RenderPassPlan {
    RenderPassPlan {
        kind: PassKind::Present,
        target: Surface::Frame,
        pipeline: Pipeline::FromTexture,
        binding: Binding::Texture(SampledTexture::DrawTexture),
        load: LoadAction::Load,
        geometry: Geometry::Quad,
        element_count: QUAD_VERTEX_COUNT,
        instance_count: 1,
    }
}

fn instances(count: u32) -> RenderPassPlan {
    RenderPassPlan {
        kind: PassKind::Instances,
        target: Surface::DrawTexture,
        pipeline: Pipeline::Instances,
        binding: Binding::FrameUniforms,
        load: LoadAction::Load,
        geometry: Geometry::InstancedDisc,
        element_count: 360,
        instance_count: count,
    }
}

#[test]
fn frame_one_with_blur() {
    let passes = plan_view_passes(1, true, 360, 10000);
    let blur_h = RenderPassPlan {
        kind: PassKind::BlurHorizontal,
        target: Surface::BlurTexture,
        pipeline: Pipeline::Blur,
        binding: Binding::TextureWithBlurUniforms(SampledTexture::DrawTexture),
        load: LoadAction::ClearRed,
        geometry: Geometry::Quad,
        element_count: 6,
        instance_count: 1,
    };
    let blur_v = RenderPassPlan {
        kind: PassKind::BlurVertical,
        target: Surface::DrawTexture,
        pipeline: Pipeline::Blur,
        binding: Binding::TextureWithBlurUniforms(SampledTexture::BlurTexture),
        load: LoadAction::ClearRed,
        geometry: Geometry::Quad,
        element_count: 6,
        instance_count: 1,
    };
    assert_eq!(passes, vec![blur_h, blur_v, instances(10000), present()]);
}

#[test]
fn later_frame_with_blur_loads() {
    let passes = plan_view_passes(2, true, 360, 10000);
    assert_eq!(passes.len(), 4);
    assert!(passes.iter().all(|p| p.load == LoadAction::Load));
    assert_eq!(passes[0].target, Surface::BlurTexture);
    assert_eq!(passes[1].binding, Binding::TextureWithBlurUniforms(SampledTexture::BlurTexture));
}

#[test]
fn frame_without_blur() {
    assert_eq!(plan_view_passes(1, false, 360, 3), vec![instances(3), present()]);
}

fn sampled(b: Binding) -> Option<Surface> {
    match b {
        Binding::FrameUniforms => None,
        Binding::Texture(t) | Binding::TextureWithBlurUniforms(t) => Some(match t {
            SampledTexture::DrawTexture => Surface::DrawTexture,
            SampledTexture::BlurTexture => Surface::BlurTexture,
        }),
    }
}

#[test]
fn no_pass_samples_its_target_or_the_frame() {
    for elapsed in 0..4 {
        for do_blur in [false, true] {
            for p in plan_view_passes(elapsed, do_blur, 360, 10) {
                assert_ne!(sampled(p.binding), Some(p.target));
                assert_ne!(sampled(p.binding), Some(Surface::Frame));
                assert_eq!(p.pipeline == Pipeline::Instances, p.geometry == Geometry::InstancedDisc);
            }
        }
    }
}

#[test]
fn pipeline_states() {
    let replace = BlendComponent { src_factor: BlendFactor::One, dst_factor: BlendFactor::Zero };
    for p in [Pipeline::Blur, Pipeline::FromTexture] {
        let st = pipeline_state(p);
        assert_eq!(st.color_blend, replace);
        assert_eq!(st.alpha_blend, replace);
        assert_eq!(st.topology, Topology::TriangleStrip);
        assert!(!st.instanced);
    }
    let st = pipeline_state(Pipeline::Instances);
    assert_eq!(
        st.color_blend,
        BlendComponent { src_factor: BlendFactor::SrcAlpha, dst_factor: BlendFactor::OneMinusSrcAlpha }
    );
    assert_eq!(
        st.alpha_blend,
        BlendComponent { src_factor: BlendFactor::One, dst_factor: BlendFactor::OneMinusSrcAlpha }
    );
    assert_eq!(st.topology, Topology::TriangleList);
    assert!(st.instanced);
}

#[test]
fn key_press_prints_and_others_ignored() {
    assert_eq!(event_action(WindowEventKind::KeyPressed), EventAction::PrintElapsedFrames);
    assert_eq!(event_action(WindowEventKind::KeyReleased), EventAction::Ignore);
    assert_eq!(event_action(WindowEventKind::Closed), EventAction::Ignore);
    assert_eq!(event_action(WindowEventKind::ReceivedCharacter), EventAction::Ignore);
}

#[test]
fn instance_layout_two_vec4s() {
    let slots = instance_attributes();
    assert_eq!(
        slots,
        vec![
            AttributeSlot { shader_location: 1, offset: 0, components: 4 },
            AttributeSlot { shader_location: 2, offset: 16, components: 4 },
        ]
    );
    let last = slots[slots.len() - 1];
    assert!(last.offset + 4 * last.components as u64 <= INSTANCE_STRIDE);
    assert_eq!(INSTANCE_STRIDE as usize, 8 * std::mem::size_of::<f32>());
}

#[test]
fn vertex_layout_one_vec2() {
    assert_eq!(vertex_attribute(), AttributeSlot { shader_location: 0, offset: 0, components: 2 });
}

#[test]
fn index_bytes_of_joined_sequences_are_joined() {
    let a: Vec<u16> = vec![1, 258];
    let b: Vec<u16> = vec![0xabcd];
    let joined = [a.clone(), b.clone()].concat();
    assert_eq!(indices_as_bytes(&joined, ByteOrder::Big), [indices_as_bytes(&a, ByteOrder::Big), indices_as_bytes(&b, ByteOrder::Big)].concat());
    assert_eq!(indices_as_bytes(&a, ByteOrder::Little), vec![1, 0, 2, 1]);
}

#[test]
fn word_bytes_of_joined_sequences_are_joined() {
    let a: Vec<u32> = vec![(-1.0f32).to_bits(), 1.0f32.to_bits()];
    let b: Vec<u32> = vec![7, 0x0102_0304];
    let joined = [a.clone(), b.clone()].concat();
    assert_eq!(words_as_bytes(&joined, ByteOrder::Little), [words_as_bytes(&a, ByteOrder::Little), words_as_bytes(&b, ByteOrder::Little)].concat());
    assert!(words_as_bytes(&[], ByteOrder::Little).is_empty());
}
