//! Build-definition rendering behavior.

use rockerize::dockerfile::{gen_dockerfile_from_local, gen_image_name};

#[test]
fn rendering_is_deterministic() {
    let bin = "app".to_string();
    let first = gen_dockerfile_from_local(&bin, vec![80, 443], vec!["a.txt".to_string()]);
    let second = gen_dockerfile_from_local(&bin, vec![80, 443], vec!["a.txt".to_string()]);
    assert_eq!(first, second);
}

#[test]
fn rendered_document_matches_the_template_exactly() {
    let bin = "app".to_string();
    let text = gen_dockerfile_from_local(&bin, vec![80, 443], vec!["a.txt".to_string()]);
    let expected = r#"
# Dockerfile.rockerize

FROM rust:alpine AS builder

# Add unprivileged user/group
RUN mkdir /user && \
    echo 'nobody:x:65534:65534:nobody:/:' > /user/passwd && \
    echo 'nobody:x:65534:' > /user/group

# Install certs
RUN apk add --no-cache ca-certificates libc-dev

# Working directory
WORKDIR /src

# Copy source files
COPY ./ ./

# Build source files
RUN cargo build --release

# Minimal image for running the application
FROM scratch as final

# Copy files from temporary image
COPY --from=builder /user/group /user/passwd /etc/
COPY --from=builder /etc/ssl/certs/ca-certificates.crt /etc/ssl/certs/
COPY --from=builder /src/target/release/app /

# Open ports
EXPOSE 80
EXPOSE 443

# Copy local files
COPY a.txt ./

# Will run as unprivileged user/group
USER nobody:nobody

# Entry point for the built application
ENTRYPOINT ["/app"]

"#;
    assert_eq!(text, expected);
}

#[test]
fn one_expose_line_per_port_in_order() {
    let bin = "svc".to_string();
    let text = gen_dockerfile_from_local(&bin, vec![8080, 22, 8080], Vec::new());
    assert!(text.contains("EXPOSE 8080\nEXPOSE 22\nEXPOSE 8080\n"));
    assert_eq!(text.matches("EXPOSE ").count(), 3);
}

#[test]
fn one_copy_line_per_file_in_order() {
    let bin = "svc".to_string();
    let files = vec!["logo.jpg".to_string(), "index.html".to_string()];
    let text = gen_dockerfile_from_local(&bin, Vec::new(), files);
    assert!(text.contains("COPY logo.jpg ./\nCOPY index.html ./\n"));
}

#[test]
fn empty_lists_produce_no_lines() {
    let bin = "app".to_string();
    let text = gen_dockerfile_from_local(&bin, Vec::new(), Vec::new());
    assert!(!text.contains("EXPOSE"));
    assert!(text.contains("# Open ports\n\n# Copy local files\n\n# Will run"));
}

#[test]
fn negative_port_is_rendered_with_its_sign() {
    let bin = "app".to_string();
    let text = gen_dockerfile_from_local(&bin, vec![-1], Vec::new());
    assert!(text.contains("EXPOSE -1\n"));
}

#[test]
fn image_name_has_prefix_and_tag() {
    assert_eq!(gen_image_name(&"app".to_string()), "rockerized-app:latest");
    assert_eq!(gen_image_name(&"my-svc".to_string()), "rockerized-my-svc:latest");
}
