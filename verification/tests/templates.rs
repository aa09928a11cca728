//! Expansion of command templates.

use deployer::config::ProjectConfig;
use deployer::template::expand_command;

fn project(stable_tag: Option<&str>, portainer_webhook: Option<&str>) -> ProjectConfig {
    ProjectConfig {
        id: "shop".to_string(),
        repository: "org/shop".to_string(),
        branch: "feature/cart".to_string(),
        workdir: "shop".to_string(),
        image: "reg/shop".to_string(),
        stable_tag: stable_tag.map(|tag| tag.to_string()),
        portainer_webhook: portainer_webhook.map(|url| url.to_string()),
        healthcheck_url: None,
        healthcheck_timeout_sec: None,
        env: Vec::new(),
        steps: Vec::new(),
    }
}

fn expand(template: &str, project: &ProjectConfig, source: Option<i64>) -> String {
    expand_command(
        template,
        project,
        "org/shop",
        "feature/cart",
        "0123456789abcdef",
        "0123456789ab",
        "rollback",
        "reg/shop:sha-0123456789ab",
        source,
    )
}

#[test]
fn every_variable_has_its_value() {
    let project = project(Some("stable"), Some("https://portainer/hook"));
    assert_eq!(expand("$REPOSITORY", &project, None), "org/shop");
    assert_eq!(expand("$BRANCH", &project, None), "feature/cart");
    assert_eq!(expand("$SHA", &project, None), "0123456789abcdef");
    assert_eq!(expand("$SHORT_SHA", &project, None), "0123456789ab");
    assert_eq!(expand("$JOB_ACTION", &project, None), "rollback");
    assert_eq!(expand("$SOURCE_DEPLOYMENT_ID", &project, Some(42)), "42");
    assert_eq!(expand("$PROJECT_ID", &project, None), "shop");
    assert_eq!(expand("$IMAGE", &project, None), "reg/shop");
    assert_eq!(expand("$STABLE_TAG", &project, None), "stable");
    assert_eq!(expand("$STABLE_IMAGE_REFERENCE", &project, None), "reg/shop:stable");
    assert_eq!(expand("$PORTAINER_WEBHOOK", &project, None), "https://portainer/hook");
}

#[test]
fn image_reference_is_not_taken_for_image() {
    let project = project(None, None);
    assert_eq!(
        expand("docker push $IMAGE_REFERENCE", &project, None),
        "docker push reg/shop:sha-0123456789ab",
    );
    assert_eq!(
        expand("$IMAGE:$IMAGE_REFERENCE:$IMAGE_REF", &project, None),
        "reg/shop:reg/shop:sha-0123456789ab:reg/shop_REF",
    );
}

#[test]
fn absent_values_are_empty_and_the_tag_comes_from_the_branch() {
    let project = project(None, None);
    assert_eq!(expand("[$SOURCE_DEPLOYMENT_ID]", &project, None), "[]");
    assert_eq!(expand("[$PORTAINER_WEBHOOK]", &project, None), "[]");
    assert_eq!(expand("$STABLE_TAG", &project, None), "feature-cart");
    assert_eq!(expand("$STABLE_IMAGE_REFERENCE", &project, None), "reg/shop:feature-cart");
}

#[test]
fn template_of_texts_and_variables() {
    let project = project(Some("stable"), None);
    assert_eq!(
        expand(
            "git clone $REPOSITORY && git checkout $SHA && docker tag $IMAGE_REFERENCE $STABLE_IMAGE_REFERENCE",
            &project,
            None,
        ),
        "git clone org/shop && git checkout 0123456789abcdef && docker tag reg/shop:sha-0123456789ab reg/shop:stable",
    );
    assert_eq!(expand("$SHA$SHA$$SHA", &project, None), "0123456789abcdef0123456789abcdef$0123456789abcdef");
}

#[test]
fn template_without_variables_is_kept() {
    let project = project(None, None);
    assert_eq!(expand("echo hello", &project, None), "echo hello");
    assert_eq!(expand("", &project, None), "");
    assert_eq!(expand("echo $HOME", &project, None), "echo $HOME");
}

#[test]
fn value_with_a_variable_is_expanded_by_later_turns_only() {
    let mut later = project(None, None);
    later.id = "$BRANCH".to_string();
    assert_eq!(expand("$PROJECT_ID", &later, None), "$BRANCH");
    let mut earlier = project(None, None);
    earlier.id = "$IMAGE".to_string();
    assert_eq!(expand("$PROJECT_ID", &earlier, None), "reg/shop");
}
