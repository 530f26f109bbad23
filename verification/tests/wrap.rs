use bevy_openxr::backend::GraphicsBackend;
use bevy_openxr::error::XrError;
use bevy_openxr::wrap::GraphicsWrap;

#[test]
fn container_holds_its_own_backend_only() {
    let vulkan: GraphicsWrap<u8, u16> = GraphicsWrap::Vulkan(7);
    assert!(vulkan.using_graphics(GraphicsBackend::Vulkan));
    assert!(!vulkan.using_graphics(GraphicsBackend::OpenGl));
    let opengl: GraphicsWrap<u8, u16> = GraphicsWrap::OpenGl(9);
    assert!(opengl.using_graphics(GraphicsBackend::OpenGl));
    assert!(!opengl.using_graphics(GraphicsBackend::Vulkan));
}

#[test]
fn membership_for_every_pair_of_backends() {
    for b1 in GraphicsBackend::all() {
        let wrap: GraphicsWrap<(), ()> = match b1 {
            GraphicsBackend::Vulkan => GraphicsWrap::Vulkan(()),
            GraphicsBackend::OpenGl => GraphicsWrap::OpenGl(()),
        };
        for b2 in GraphicsBackend::all() {
            assert_eq!(wrap.using_graphics(b2), b1 == b2);
            assert_eq!(wrap.using_graphics_of_val(&b2), b1 == b2);
        }
    }
}

#[test]
fn tag_follows_the_variant() {
    let vulkan: GraphicsWrap<&str, &str> = GraphicsWrap::Vulkan("a");
    let opengl: GraphicsWrap<&str, &str> = GraphicsWrap::OpenGl("a");
    assert_eq!(vulkan.backend(), GraphicsBackend::Vulkan);
    assert_eq!(opengl.backend(), GraphicsBackend::OpenGl);
    assert_eq!(vulkan.graphics_name(), "Vulkan");
    assert_eq!(opengl.graphics_name(), "OpenGL");
}

#[test]
fn same_graphics_compares_tags_not_payloads() {
    let a: GraphicsWrap<u8, u8> = GraphicsWrap::Vulkan(1);
    let b: GraphicsWrap<String, bool> = GraphicsWrap::Vulkan(String::from("x"));
    let c: GraphicsWrap<String, bool> = GraphicsWrap::OpenGl(true);
    assert!(a.same_graphics(&b));
    assert!(!a.same_graphics(&c));
}

#[test]
fn as_ref_keeps_tag_and_payload() {
    let a: GraphicsWrap<u8, u16> = GraphicsWrap::OpenGl(300);
    assert_eq!(a.as_ref(), GraphicsWrap::OpenGl(&300));
    let b: GraphicsWrap<u8, u16> = GraphicsWrap::Vulkan(3);
    assert_eq!(b.as_ref(), GraphicsWrap::Vulkan(&3));
}

#[test]
fn check_graphics_accepts_the_same_backend() {
    let info: GraphicsWrap<u8, u8> = GraphicsWrap::Vulkan(0);
    assert_eq!(info.check_graphics(GraphicsBackend::Vulkan), Ok(()));
}

#[test]
fn check_graphics_names_both_backends() {
    let info: GraphicsWrap<u8, u8> = GraphicsWrap::OpenGl(0);
    assert_eq!(
        info.check_graphics(GraphicsBackend::Vulkan),
        Err(XrError::GraphicsBackendMismatch {
            expected: GraphicsBackend::Vulkan,
            actual: GraphicsBackend::OpenGl,
        })
    );
    let info: GraphicsWrap<u8, u8> = GraphicsWrap::Vulkan(0);
    assert_eq!(
        info.check_graphics(GraphicsBackend::OpenGl),
        Err(XrError::GraphicsBackendMismatch {
            expected: GraphicsBackend::OpenGl,
            actual: GraphicsBackend::Vulkan,
        })
    );
}
