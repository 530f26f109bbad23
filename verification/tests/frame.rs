use bevy_openxr::backend::GraphicsBackend;
use bevy_openxr::error::XrError;
use bevy_openxr::frame::select_layers;
use bevy_openxr::frame::FrameBracket;

const V: Option<GraphicsBackend> = Some(GraphicsBackend::Vulkan);
const G: Option<GraphicsBackend> = Some(GraphicsBackend::OpenGl);

#[test]
fn no_layers() {
    assert_eq!(select_layers(GraphicsBackend::Vulkan, &vec![]), (vec![], vec![]));
}

#[test]
fn layers_of_the_same_backend_are_all_submitted() {
    let layers = vec![V, V, V];
    assert_eq!(select_layers(GraphicsBackend::Vulkan, &layers), (vec![0, 1, 2], vec![]));
}

#[test]
fn layer_without_swapchain_is_submitted() {
    let layers = vec![None, None];
    assert_eq!(select_layers(GraphicsBackend::Vulkan, &layers), (vec![0, 1], vec![]));
    assert_eq!(select_layers(GraphicsBackend::OpenGl, &layers), (vec![0, 1], vec![]));
}

#[test]
fn foreign_layer_is_left_out_and_the_frame_goes_on() {
    let layers = vec![V, G];
    let (accepted, excluded) = select_layers(GraphicsBackend::Vulkan, &layers);
    assert_eq!(accepted, vec![0]);
    assert_eq!(excluded, vec![1]);
}

#[test]
fn all_layers_foreign() {
    let layers = vec![G, G];
    assert_eq!(select_layers(GraphicsBackend::Vulkan, &layers), (vec![], vec![0, 1]));
}

#[test]
fn mixed_layers_keep_their_order() {
    let layers = vec![G, V, None, G, V, G, None];
    let (accepted, excluded) = select_layers(GraphicsBackend::Vulkan, &layers);
    assert_eq!(accepted, vec![1, 2, 4, 6]);
    assert_eq!(excluded, vec![0, 3, 5]);
    assert_eq!(accepted.len() + excluded.len(), layers.len());
    let (accepted, excluded) = select_layers(GraphicsBackend::OpenGl, &layers);
    assert_eq!(accepted, vec![0, 2, 3, 5, 6]);
    assert_eq!(excluded, vec![1, 4]);
}

#[test]
fn submitted_count_is_layers_minus_foreign_ones() {
    for n in 0..6usize {
        for m in 0..=n {
            let mut layers = vec![];
            for i in 0..n {
                layers.push(if i < m { G } else { V });
            }
            let (accepted, excluded) = select_layers(GraphicsBackend::Vulkan, &layers);
            assert_eq!(accepted.len(), n - m);
            assert_eq!(excluded.len(), m);
        }
    }
}

#[test]
fn bracket_starts_idle() {
    assert!(!FrameBracket::new().is_begun());
}

#[test]
fn begun_frame_is_recorded_and_the_answer_handed_on() {
    let mut bracket = FrameBracket::new();
    assert!(bracket.begin_answered(Ok(())) == Ok(()));
    assert!(bracket.is_begun());
}

#[test]
fn failed_begin_leaves_the_bracket_as_it_was() {
    let mut bracket = FrameBracket::new();
    let status = openxr::sys::Result::ERROR_SESSION_NOT_RUNNING;
    assert!(bracket.begin_answered(Err(status)) == Err(status));
    assert!(!bracket.is_begun());
    assert!(bracket.begin_answered(Ok(())) == Ok(()));
    assert!(bracket.begin_answered(Err(status)) == Err(status));
    assert!(bracket.is_begun());
}

#[test]
fn ended_frame_closes_the_bracket() {
    let mut bracket = FrameBracket::new();
    assert!(bracket.begin_answered(Ok(())) == Ok(()));
    assert_eq!(bracket.end_answered(Ok(())), Ok(()));
    assert!(!bracket.is_begun());
}

#[test]
fn failed_end_hands_the_status_on_and_keeps_the_bracket() {
    let mut bracket = FrameBracket::new();
    assert!(bracket.begin_answered(Ok(())) == Ok(()));
    assert_eq!(
        bracket.end_answered(Err(openxr::sys::Result::ERROR_TIME_INVALID)),
        Err(XrError::OpenXrError(openxr::sys::Result::ERROR_TIME_INVALID))
    );
    assert!(bracket.is_begun());
}
