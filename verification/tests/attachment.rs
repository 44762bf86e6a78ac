use runen_gpu::attachment::{
    attachment_aspect_access_specs, GpuAttachmentAspectAccessSpec, GpuColorAttachmentLoad,
    GpuDepthAttachmentLoad, GpuDepthAttachmentState, GpuMultisampleResolveTarget,
    GpuRenderColorAttachment, GpuRenderDepthStencilAttachment, GpuStencilAttachmentLoad,
    GpuStencilAttachmentState, GpuStencilClearValue,
};
use runen_gpu::diagnostics::{GpuWorkOperationCause, GpuWorkOperationSubject};
use runen_gpu::texture_format::{GpuTextureAspect, GpuTextureFormat};
use runen_gpu::texture_resource::{
    GpuAttachmentLoadKind, GpuAttachmentStore, GpuDepthStencilAccess, GpuResourceId,
    GpuTextureAccess, GpuTextureAccessError, GpuTextureAccessKind, GpuTextureAccessResource,
    GpuTextureDescriptor, GpuTextureDimension, GpuTextureHandle, GpuTextureSubresourceRange,
    GpuTextureUsage, GpuTextureUsages, GpuTextureViewDescriptor, GpuTextureViewDimension,
    GpuTextureViewHandle,
};

#[test]
fn combined_depth_stencil_access_specs_remain_independent() {
    let depth = GpuDepthAttachmentState::new(
        GpuDepthStencilAccess::ReadOnly,
        GpuDepthAttachmentLoad::Load,
        GpuAttachmentStore::Store,
    )
    .unwrap();
    let stencil = GpuStencilAttachmentState::new(
        GpuDepthStencilAccess::ReadWrite,
        GpuStencilAttachmentLoad::Clear(GpuStencilClearValue::new(7).unwrap()),
        GpuAttachmentStore::Discard,
    )
    .unwrap();

    let specs = attachment_aspect_access_specs(Some(depth), Some(stencil));
    assert_eq!(
        specs,
        [
            GpuAttachmentAspectAccessSpec {
                aspect: GpuTextureAspect::DepthOnly,
                access: GpuDepthStencilAccess::ReadOnly,
                load_kind: GpuAttachmentLoadKind::Load,
                store: GpuAttachmentStore::Store,
            },
            GpuAttachmentAspectAccessSpec {
                aspect: GpuTextureAspect::StencilOnly,
                access: GpuDepthStencilAccess::ReadWrite,
                load_kind: GpuAttachmentLoadKind::Clear,
                store: GpuAttachmentStore::Discard,
            },
        ]
    );
}

fn view_of(
    id: u64,
    format: GpuTextureFormat,
    samples: u32,
    usages: &[GpuTextureUsage],
    mip: u32,
    layer: u32,
) -> GpuTextureViewHandle {
    let descriptor = GpuTextureDescriptor::new(
        format!("texture {id}"),
        format,
        GpuTextureDimension::D2,
        16,
        16,
        4,
        3,
        samples,
        GpuTextureUsages::from_usages(&usages.to_vec()),
    )
    .unwrap();
    let texture = GpuTextureHandle::new(GpuResourceId(id), descriptor);
    let range = GpuTextureSubresourceRange::new(mip, 1, layer, 1, GpuTextureAspect::All).unwrap();
    let view = GpuTextureViewDescriptor::new(
        format!("view {id}"),
        texture,
        None,
        GpuTextureViewDimension::D2,
        range,
    )
    .unwrap();
    GpuTextureViewHandle::new(GpuResourceId(id + 100), view)
}

#[test]
fn color_attachment_records_the_checked_access_of_its_own_subresource() {
    let source = view_of(1, GpuTextureFormat::Rgba8Unorm, 1, &[GpuTextureUsage::ColorAttachment], 2, 3);
    let attachment = GpuRenderColorAttachment::new(
        source.clone(),
        GpuColorAttachmentLoad::Load,
        GpuAttachmentStore::Store,
        None,
    )
    .unwrap();
    let expected = GpuTextureAccess::new(
        GpuTextureAccessResource::TextureView(source.clone()),
        source.descriptor().subresources(),
        GpuTextureAccessKind::ColorAttachment {
            load_kind: GpuAttachmentLoadKind::Load,
            store: GpuAttachmentStore::Store,
        },
    )
    .unwrap();
    assert_eq!(attachment.source_access(), &expected);
    assert_eq!(attachment.subresources().base_mip_level(), 2);
    assert_eq!(attachment.subresources().base_array_layer(), 3);
    assert_eq!(attachment.subresources().aspect(), GpuTextureAspect::Color);
}

#[test]
fn resolve_target_records_the_checked_access_of_its_own_subresource() {
    let destination = view_of(2, GpuTextureFormat::Rgba8Unorm, 1, &[GpuTextureUsage::ColorAttachment], 1, 2);
    let target = GpuMultisampleResolveTarget::new(destination.clone()).unwrap();
    let expected = GpuTextureAccess::new(
        GpuTextureAccessResource::TextureView(destination.clone()),
        destination.descriptor().subresources(),
        GpuTextureAccessKind::MultisampleResolveDestination,
    )
    .unwrap();
    assert_eq!(target.access(), &expected);
    assert_eq!(target.subresources(), target.access().normalized_subresources());
    assert_eq!(target.subresources().base_mip_level(), 1);

    let multisampled = view_of(3, GpuTextureFormat::Rgba8Unorm, 4, &[GpuTextureUsage::ColorAttachment], 0, 0);
    let error = GpuMultisampleResolveTarget::new(multisampled).unwrap_err();
    assert_eq!(error.cause(), GpuWorkOperationCause::InvalidMultisampleResolve);
    assert_eq!(error.access_error(), Some(GpuTextureAccessError::MultisampledResolveDestination));
    assert_eq!(error.subject(), &GpuWorkOperationSubject::Labeled("texture 3".to_string()));
    assert_eq!(error.identity(), None);
}

#[test]
fn attachments_need_the_usage_of_their_own_kind() {
    let depth_only = view_of(4, GpuTextureFormat::Rgba8Unorm, 1, &[GpuTextureUsage::DepthStencilAttachment], 0, 0);
    let error = GpuRenderColorAttachment::new(
        depth_only,
        GpuColorAttachmentLoad::Load,
        GpuAttachmentStore::Store,
        None,
    )
    .unwrap_err();
    assert_eq!(error.cause(), GpuWorkOperationCause::InvalidAttachment);
    assert_eq!(error.access_error(), Some(GpuTextureAccessError::MissingColorAttachmentUsage));
    assert_eq!(error.subject(), &GpuWorkOperationSubject::Labeled("texture 4".to_string()));

    let color_only = view_of(5, GpuTextureFormat::Depth32Float, 1, &[GpuTextureUsage::ColorAttachment], 0, 0);
    let depth = GpuDepthAttachmentState::new(
        GpuDepthStencilAccess::ReadWrite,
        GpuDepthAttachmentLoad::Load,
        GpuAttachmentStore::Store,
    )
    .unwrap();
    let error = GpuRenderDepthStencilAttachment::new(color_only, Some(depth), None).unwrap_err();
    assert_eq!(error.access_error(), Some(GpuTextureAccessError::MissingDepthStencilAttachmentUsage));

    let depth_view = view_of(6, GpuTextureFormat::Depth32Float, 1, &[GpuTextureUsage::DepthStencilAttachment], 0, 0);
    assert!(GpuRenderDepthStencilAttachment::new(depth_view, Some(depth), None).is_ok());
}

#[test]
fn attachment_refusals_name_the_view_or_texture_by_label() {
    let depth_view = view_of(7, GpuTextureFormat::Depth32Float, 1, &[GpuTextureUsage::DepthStencilAttachment], 0, 0);
    let error = GpuRenderDepthStencilAttachment::new(depth_view, None, None).unwrap_err();
    assert_eq!(error.cause(), GpuWorkOperationCause::InvalidAttachment);
    assert_eq!(error.subject(), &GpuWorkOperationSubject::Labeled("texture 7".to_string()));
    assert_eq!(error.identity(), Some(GpuResourceId(7)));

    let texture = GpuTextureHandle::new(
        GpuResourceId(8),
        GpuTextureDescriptor::new(
            "layered".to_string(),
            GpuTextureFormat::Rgba8Unorm,
            GpuTextureDimension::D2,
            8,
            8,
            4,
            1,
            1,
            GpuTextureUsages::empty().with(GpuTextureUsage::ColorAttachment),
        )
        .unwrap(),
    );
    let two_layers = GpuTextureSubresourceRange::new(0, 1, 0, 2, GpuTextureAspect::All).unwrap();
    let view = GpuTextureViewHandle::new(
        GpuResourceId(9),
        GpuTextureViewDescriptor::new(
            "two layers".to_string(),
            texture,
            None,
            GpuTextureViewDimension::D2Array,
            two_layers,
        )
        .unwrap(),
    );
    let error = GpuRenderColorAttachment::new(
        view,
        GpuColorAttachmentLoad::Load,
        GpuAttachmentStore::Store,
        None,
    )
    .unwrap_err();
    assert_eq!(error.subject(), &GpuWorkOperationSubject::Labeled("two layers".to_string()));
    assert_eq!(error.identity(), Some(GpuResourceId(9)));
}
