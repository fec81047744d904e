//! The payload types of GitHub webhook events: one sum type per event
//! family, one record per payload shape.
//!
//! Fields whose shape has no counterpart here are left out.

#![allow(non_camel_case_types)]

use vstd::prelude::*;

verus! {

pub enum Schema {
    BranchProtectionRuleEvent(BranchProtectionRuleEvent),
    CheckRunEvent(CheckRunEvent),
    CheckSuiteEvent(CheckSuiteEvent),
    CodeScanningAlertEvent(CodeScanningAlertEvent),
    CommitCommentEvent(CommitCommentEvent),
    CreateEvent(CreateEvent),
    DeleteEvent(DeleteEvent),
    DependabotAlertEvent(DependabotAlertEvent),
    DeployKeyEvent(DeployKeyEvent),
    DeploymentEvent(DeploymentEvent),
    DeploymentStatusEvent(DeploymentStatusEvent),
    DiscussionEvent(DiscussionEvent),
    DiscussionCommentEvent(DiscussionCommentEvent),
    ForkEvent(ForkEvent),
    GithubAppAuthorizationEvent(GithubAppAuthorizationEvent),
    GollumEvent(GollumEvent),
    InstallationEvent(InstallationEvent),
    InstallationRepositoriesEvent(InstallationRepositoriesEvent),
    IssueCommentEvent(IssueCommentEvent),
    IssuesEvent(IssuesEvent),
    LabelEvent(LabelEvent),
    MarketplacePurchaseEvent(MarketplacePurchaseEvent),
    MemberEvent(MemberEvent),
    MembershipEvent(MembershipEvent),
    MergeGroupEvent(MergeGroupEvent),
    MetaEvent(MetaEvent),
    MilestoneEvent(MilestoneEvent),
    OrgBlockEvent(OrgBlockEvent),
    OrganizationEvent(OrganizationEvent),
    PackageEvent(PackageEvent),
    PageBuildEvent(PageBuildEvent),
    PingEvent(PingEvent),
    ProjectEvent(ProjectEvent),
    ProjectCardEvent(ProjectCardEvent),
    ProjectColumnEvent(ProjectColumnEvent),
    ProjectsV2ItemEvent(ProjectsV2ItemEvent),
    PublicEvent(PublicEvent),
    PullRequestEvent(PullRequestEvent),
    PullRequestReviewEvent(PullRequestReviewEvent),
    PullRequestReviewCommentEvent(PullRequestReviewCommentEvent),
    PullRequestReviewThreadEvent(PullRequestReviewThreadEvent),
    PushEvent(PushEvent),
    RegistryPackageEvent(RegistryPackageEvent),
    ReleaseEvent(ReleaseEvent),
    RepositoryEvent(RepositoryEvent),
    RepositoryDispatchEvent(RepositoryDispatchEvent),
    RepositoryImportEvent(RepositoryImportEvent),
    RepositoryVulnerabilityAlertEvent(RepositoryVulnerabilityAlertEvent),
    SecretScanningAlertEvent(SecretScanningAlertEvent),
    SecurityAdvisoryEvent(SecurityAdvisoryEvent),
    SponsorshipEvent(SponsorshipEvent),
    StarEvent(StarEvent),
    StatusEvent(StatusEvent),
    TeamEvent(TeamEvent),
    TeamAddEvent(TeamAddEvent),
    WatchEvent(WatchEvent),
    WorkflowDispatchEvent(WorkflowDispatchEvent),
    WorkflowJobEvent(WorkflowJobEvent),
    WorkflowRunEvent(WorkflowRunEvent),
}

pub enum BranchProtectionRuleEvent {
    BranchProtectionRuleCreatedEvent(BranchProtectionRuleCreatedEvent),
    BranchProtectionRuleDeletedEvent(BranchProtectionRuleDeletedEvent),
    BranchProtectionRuleEditedEvent(BranchProtectionRuleEditedEvent),
}

pub enum BranchProtectionRuleEnforcementLevel {
    off,
    non_admins,
    everyone,
}

pub type BranchProtectionRuleNumber = usize;

pub type BranchProtectionRuleBoolean = bool;

pub type BranchProtectionRuleArray = Vec<String>;

pub enum CheckRunEvent {
    CheckRunCompletedEvent(CheckRunCompletedEvent),
    CheckRunCreatedEvent(CheckRunCreatedEvent),
    CheckRunRequestedActionEvent(CheckRunRequestedActionEvent),
    CheckRunRerequestedEvent(CheckRunRerequestedEvent),
}

pub enum CheckSuiteEvent {
    CheckSuiteCompletedEvent(CheckSuiteCompletedEvent),
    CheckSuiteRequestedEvent(CheckSuiteRequestedEvent),
    CheckSuiteRerequestedEvent(CheckSuiteRerequestedEvent),
}

pub enum CodeScanningAlertEvent {
    CodeScanningAlertAppearedInBranchEvent(CodeScanningAlertAppearedInBranchEvent),
    CodeScanningAlertClosedByUserEvent(CodeScanningAlertClosedByUserEvent),
    CodeScanningAlertCreatedEvent(CodeScanningAlertCreatedEvent),
    CodeScanningAlertFixedEvent(CodeScanningAlertFixedEvent),
    CodeScanningAlertReopenedEvent(CodeScanningAlertReopenedEvent),
    CodeScanningAlertReopenedByUserEvent(CodeScanningAlertReopenedByUserEvent),
}

pub type CommitCommentEvent = CommitCommentCreatedEvent;

pub enum AuthorAssociation {
    COLLABORATOR,
    CONTRIBUTOR,
    FIRST_TIMER,
    FIRST_TIME_CONTRIBUTOR,
    MANNEQUIN,
    MEMBER,
    NONE,
    OWNER,
}

pub enum DependabotAlertEvent {
    DependabotAlertCreatedEvent(DependabotAlertCreatedEvent),
    DependabotAlertDismissedEvent(DependabotAlertDismissedEvent),
    DependabotAlertFixedEvent(DependabotAlertFixedEvent),
    DependabotAlertReintroducedEvent(DependabotAlertReintroducedEvent),
    DependabotAlertReopenedEvent(DependabotAlertReopenedEvent),
}

pub enum DeployKeyEvent {
    DeployKeyCreatedEvent(DeployKeyCreatedEvent),
    DeployKeyDeletedEvent(DeployKeyDeletedEvent),
}

pub type DeploymentEvent = DeploymentCreatedEvent;

pub type DeploymentStatusEvent = DeploymentStatusCreatedEvent;

pub enum DiscussionEvent {
    DiscussionAnsweredEvent(DiscussionAnsweredEvent),
    DiscussionCategoryChangedEvent(DiscussionCategoryChangedEvent),
    DiscussionCreatedEvent(DiscussionCreatedEvent),
    DiscussionDeletedEvent(DiscussionDeletedEvent),
    DiscussionEditedEvent(DiscussionEditedEvent),
    DiscussionLabeledEvent(DiscussionLabeledEvent),
    DiscussionLockedEvent(DiscussionLockedEvent),
    DiscussionPinnedEvent(DiscussionPinnedEvent),
    DiscussionTransferredEvent(DiscussionTransferredEvent),
    DiscussionUnansweredEvent(DiscussionUnansweredEvent),
    DiscussionUnlabeledEvent(DiscussionUnlabeledEvent),
    DiscussionUnlockedEvent(DiscussionUnlockedEvent),
    DiscussionUnpinnedEvent(DiscussionUnpinnedEvent),
}

pub enum DiscussionCommentEvent {
    DiscussionCommentCreatedEvent(DiscussionCommentCreatedEvent),
    DiscussionCommentDeletedEvent(DiscussionCommentDeletedEvent),
    DiscussionCommentEditedEvent(DiscussionCommentEditedEvent),
}

pub type GithubAppAuthorizationEvent = GithubAppAuthorizationRevokedEvent;

pub enum InstallationEvent {
    InstallationCreatedEvent(InstallationCreatedEvent),
    InstallationDeletedEvent(InstallationDeletedEvent),
    InstallationNewPermissionsAcceptedEvent(InstallationNewPermissionsAcceptedEvent),
    InstallationSuspendEvent(InstallationSuspendEvent),
    InstallationUnsuspendEvent(InstallationUnsuspendEvent),
}

pub enum InstallationRepositoriesEvent {
    InstallationRepositoriesAddedEvent(InstallationRepositoriesAddedEvent),
    InstallationRepositoriesRemovedEvent(InstallationRepositoriesRemovedEvent),
}

pub enum IssueCommentEvent {
    IssueCommentCreatedEvent(IssueCommentCreatedEvent),
    IssueCommentDeletedEvent(IssueCommentDeletedEvent),
    IssueCommentEditedEvent(IssueCommentEditedEvent),
}

pub enum IssuesEvent {
    IssuesAssignedEvent(IssuesAssignedEvent),
    IssuesClosedEvent(IssuesClosedEvent),
    IssuesDeletedEvent(IssuesDeletedEvent),
    IssuesDemilestonedEvent(IssuesDemilestonedEvent),
    IssuesEditedEvent(IssuesEditedEvent),
    IssuesLabeledEvent(IssuesLabeledEvent),
    IssuesLockedEvent(IssuesLockedEvent),
    IssuesMilestonedEvent(IssuesMilestonedEvent),
    IssuesOpenedEvent(IssuesOpenedEvent),
    IssuesPinnedEvent(IssuesPinnedEvent),
    IssuesReopenedEvent(IssuesReopenedEvent),
    IssuesTransferredEvent(IssuesTransferredEvent),
    IssuesUnassignedEvent(IssuesUnassignedEvent),
    IssuesUnlabeledEvent(IssuesUnlabeledEvent),
    IssuesUnlockedEvent(IssuesUnlockedEvent),
    IssuesUnpinnedEvent(IssuesUnpinnedEvent),
}

pub enum LabelEvent {
    LabelCreatedEvent(LabelCreatedEvent),
    LabelDeletedEvent(LabelDeletedEvent),
    LabelEditedEvent(LabelEditedEvent),
}

pub enum MarketplacePurchaseEvent {
    MarketplacePurchaseCancelledEvent(MarketplacePurchaseCancelledEvent),
    MarketplacePurchaseChangedEvent(MarketplacePurchaseChangedEvent),
    MarketplacePurchasePendingChangeEvent(MarketplacePurchasePendingChangeEvent),
    MarketplacePurchasePendingChangeCancelledEvent(MarketplacePurchasePendingChangeCancelledEvent),
    MarketplacePurchasePurchasedEvent(MarketplacePurchasePurchasedEvent),
}

pub enum MemberEvent {
    MemberAddedEvent(MemberAddedEvent),
    MemberEditedEvent(MemberEditedEvent),
    MemberRemovedEvent(MemberRemovedEvent),
}

pub enum MembershipEvent {
    MembershipAddedEvent(MembershipAddedEvent),
    MembershipRemovedEvent(MembershipRemovedEvent),
}

pub type MergeGroupEvent = MergeGroupChecksRequestedEvent;

pub type MetaEvent = MetaDeletedEvent;

pub enum MilestoneEvent {
    MilestoneClosedEvent(MilestoneClosedEvent),
    MilestoneCreatedEvent(MilestoneCreatedEvent),
    MilestoneDeletedEvent(MilestoneDeletedEvent),
    MilestoneEditedEvent(MilestoneEditedEvent),
    MilestoneOpenedEvent(MilestoneOpenedEvent),
}

pub enum OrgBlockEvent {
    OrgBlockBlockedEvent(OrgBlockBlockedEvent),
    OrgBlockUnblockedEvent(OrgBlockUnblockedEvent),
}

pub enum OrganizationEvent {
    OrganizationDeletedEvent(OrganizationDeletedEvent),
    OrganizationMemberAddedEvent(OrganizationMemberAddedEvent),
    OrganizationMemberInvitedEvent(OrganizationMemberInvitedEvent),
    OrganizationMemberRemovedEvent(OrganizationMemberRemovedEvent),
    OrganizationRenamedEvent(OrganizationRenamedEvent),
}

pub enum PackageEvent {
    PackagePublishedEvent(PackagePublishedEvent),
    PackageUpdatedEvent(PackageUpdatedEvent),
}

pub enum ProjectEvent {
    ProjectClosedEvent(ProjectClosedEvent),
    ProjectCreatedEvent(ProjectCreatedEvent),
    ProjectDeletedEvent(ProjectDeletedEvent),
    ProjectEditedEvent(ProjectEditedEvent),
    ProjectReopenedEvent(ProjectReopenedEvent),
}

pub enum ProjectCardEvent {
    ProjectCardConvertedEvent(ProjectCardConvertedEvent),
    ProjectCardCreatedEvent(ProjectCardCreatedEvent),
    ProjectCardDeletedEvent(ProjectCardDeletedEvent),
    ProjectCardEditedEvent(ProjectCardEditedEvent),
    ProjectCardMovedEvent(ProjectCardMovedEvent),
}

pub enum ProjectColumnEvent {
    ProjectColumnCreatedEvent(ProjectColumnCreatedEvent),
    ProjectColumnDeletedEvent(ProjectColumnDeletedEvent),
    ProjectColumnEditedEvent(ProjectColumnEditedEvent),
    ProjectColumnMovedEvent(ProjectColumnMovedEvent),
}

pub enum ProjectsV2ItemEvent {
    ProjectsV2ItemArchivedEvent(ProjectsV2ItemArchivedEvent),
    ProjectsV2ItemConvertedEvent(ProjectsV2ItemConvertedEvent),
    ProjectsV2ItemCreatedEvent(ProjectsV2ItemCreatedEvent),
    ProjectsV2ItemDeletedEvent(ProjectsV2ItemDeletedEvent),
    ProjectsV2ItemEditedEvent(ProjectsV2ItemEditedEvent),
    ProjectsV2ItemReorderedEvent(ProjectsV2ItemReorderedEvent),
    ProjectsV2ItemRestoredEvent(ProjectsV2ItemRestoredEvent),
}

pub enum PullRequestEvent {
    PullRequestAssignedEvent(PullRequestAssignedEvent),
    PullRequestAutoMergeDisabledEvent(PullRequestAutoMergeDisabledEvent),
    PullRequestAutoMergeEnabledEvent(PullRequestAutoMergeEnabledEvent),
    PullRequestClosedEvent(PullRequestClosedEvent),
    PullRequestConvertedToDraftEvent(PullRequestConvertedToDraftEvent),
    PullRequestDequeuedEvent(PullRequestDequeuedEvent),
    PullRequestEditedEvent(PullRequestEditedEvent),
    PullRequestLabeledEvent(PullRequestLabeledEvent),
    PullRequestLockedEvent(PullRequestLockedEvent),
    PullRequestOpenedEvent(PullRequestOpenedEvent),
    PullRequestQueuedEvent(PullRequestQueuedEvent),
    PullRequestReadyForReviewEvent(PullRequestReadyForReviewEvent),
    PullRequestReopenedEvent(PullRequestReopenedEvent),
    PullRequestReviewRequestRemovedEvent(PullRequestReviewRequestRemovedEvent),
    PullRequestReviewRequestedEvent(PullRequestReviewRequestedEvent),
    PullRequestSynchronizeEvent(PullRequestSynchronizeEvent),
    PullRequestUnassignedEvent(PullRequestUnassignedEvent),
    PullRequestUnlabeledEvent(PullRequestUnlabeledEvent),
    PullRequestUnlockedEvent(PullRequestUnlockedEvent),
}

pub enum PullRequestReviewEvent {
    PullRequestReviewDismissedEvent(PullRequestReviewDismissedEvent),
    PullRequestReviewEditedEvent(PullRequestReviewEditedEvent),
    PullRequestReviewSubmittedEvent(PullRequestReviewSubmittedEvent),
}

pub enum PullRequestReviewCommentEvent {
    PullRequestReviewCommentCreatedEvent(PullRequestReviewCommentCreatedEvent),
    PullRequestReviewCommentDeletedEvent(PullRequestReviewCommentDeletedEvent),
    PullRequestReviewCommentEditedEvent(PullRequestReviewCommentEditedEvent),
}

pub enum PullRequestReviewThreadEvent {
    PullRequestReviewThreadResolvedEvent(PullRequestReviewThreadResolvedEvent),
    PullRequestReviewThreadUnresolvedEvent(PullRequestReviewThreadUnresolvedEvent),
}

pub enum RegistryPackageEvent {
    RegistryPackagePublishedEvent(RegistryPackagePublishedEvent),
    RegistryPackageUpdatedEvent(RegistryPackageUpdatedEvent),
}

pub enum ReleaseEvent {
    ReleaseCreatedEvent(ReleaseCreatedEvent),
    ReleaseDeletedEvent(ReleaseDeletedEvent),
    ReleaseEditedEvent(ReleaseEditedEvent),
    ReleasePrereleasedEvent(ReleasePrereleasedEvent),
    ReleasePublishedEvent(ReleasePublishedEvent),
    ReleaseReleasedEvent(ReleaseReleasedEvent),
    ReleaseUnpublishedEvent(ReleaseUnpublishedEvent),
}

pub enum RepositoryEvent {
    RepositoryArchivedEvent(RepositoryArchivedEvent),
    RepositoryCreatedEvent(RepositoryCreatedEvent),
    RepositoryDeletedEvent(RepositoryDeletedEvent),
    RepositoryEditedEvent(RepositoryEditedEvent),
    RepositoryPrivatizedEvent(RepositoryPrivatizedEvent),
    RepositoryPublicizedEvent(RepositoryPublicizedEvent),
    RepositoryRenamedEvent(RepositoryRenamedEvent),
    RepositoryTransferredEvent(RepositoryTransferredEvent),
    RepositoryUnarchivedEvent(RepositoryUnarchivedEvent),
}

pub enum RepositoryVulnerabilityAlertEvent {
    RepositoryVulnerabilityAlertCreateEvent(RepositoryVulnerabilityAlertCreateEvent),
    RepositoryVulnerabilityAlertDismissEvent(RepositoryVulnerabilityAlertDismissEvent),
    RepositoryVulnerabilityAlertReopenEvent(RepositoryVulnerabilityAlertReopenEvent),
    RepositoryVulnerabilityAlertResolveEvent(RepositoryVulnerabilityAlertResolveEvent),
}

pub enum SecretScanningAlertEvent {
    SecretScanningAlertCreatedEvent(SecretScanningAlertCreatedEvent),
    SecretScanningAlertReopenedEvent(SecretScanningAlertReopenedEvent),
    SecretScanningAlertResolvedEvent(SecretScanningAlertResolvedEvent),
}

pub enum SecurityAdvisoryEvent {
    SecurityAdvisoryPerformedEvent(SecurityAdvisoryPerformedEvent),
    SecurityAdvisoryPublishedEvent(SecurityAdvisoryPublishedEvent),
    SecurityAdvisoryUpdatedEvent(SecurityAdvisoryUpdatedEvent),
    SecurityAdvisoryWithdrawnEvent(SecurityAdvisoryWithdrawnEvent),
}

pub enum SponsorshipEvent {
    SponsorshipCancelledEvent(SponsorshipCancelledEvent),
    SponsorshipCreatedEvent(SponsorshipCreatedEvent),
    SponsorshipEditedEvent(SponsorshipEditedEvent),
    SponsorshipPendingCancellationEvent(SponsorshipPendingCancellationEvent),
    SponsorshipPendingTierChangeEvent(SponsorshipPendingTierChangeEvent),
    SponsorshipTierChangedEvent(SponsorshipTierChangedEvent),
}

pub enum StarEvent {
    StarCreatedEvent(StarCreatedEvent),
    StarDeletedEvent(StarDeletedEvent),
}

pub enum TeamEvent {
    TeamAddedToRepositoryEvent(TeamAddedToRepositoryEvent),
    TeamCreatedEvent(TeamCreatedEvent),
    TeamDeletedEvent(TeamDeletedEvent),
    TeamEditedEvent(TeamEditedEvent),
    TeamRemovedFromRepositoryEvent(TeamRemovedFromRepositoryEvent),
}

pub type WatchEvent = WatchStartedEvent;

pub enum WorkflowJobEvent {
    WorkflowJobCompletedEvent(WorkflowJobCompletedEvent),
    WorkflowJobInProgressEvent(WorkflowJobInProgressEvent),
    WorkflowJobQueuedEvent(WorkflowJobQueuedEvent),
}

pub enum WorkflowStep {
    WorkflowStepInProgress(WorkflowStepInProgress),
    WorkflowStepCompleted(WorkflowStepCompleted),
}

pub enum WorkflowRunEvent {
    WorkflowRunCompletedEvent(WorkflowRunCompletedEvent),
    WorkflowRunInProgressEvent(WorkflowRunInProgressEvent),
    WorkflowRunRequestedEvent(WorkflowRunRequestedEvent),
}

pub struct BranchProtectionRuleCreatedEvent {
    pub rule: BranchProtectionRule,
    pub repository: Repository,
    pub sender: User,
}

pub struct BranchProtectionRule {
    pub id: usize,
    pub repository_id: usize,
    pub name: String,
    pub created_at: String,
    pub updated_at: String,
    pub pull_request_reviews_enforcement_level: BranchProtectionRuleEnforcementLevel,
    pub required_approving_review_count: BranchProtectionRuleNumber,
    pub dismiss_stale_reviews_on_push: BranchProtectionRuleBoolean,
    pub require_code_owner_review: BranchProtectionRuleBoolean,
    pub authorized_dismissal_actors_only: BranchProtectionRuleBoolean,
    pub ignore_approvals_from_contributors: BranchProtectionRuleBoolean,
    pub required_status_checks: BranchProtectionRuleArray,
    pub required_status_checks_enforcement_level: BranchProtectionRuleEnforcementLevel,
    pub strict_required_status_checks_policy: BranchProtectionRuleBoolean,
    pub signature_requirement_enforcement_level: BranchProtectionRuleEnforcementLevel,
    pub linear_history_requirement_enforcement_level: BranchProtectionRuleEnforcementLevel,
    pub admin_enforced: BranchProtectionRuleBoolean,
    pub allow_force_pushes_enforcement_level: BranchProtectionRuleEnforcementLevel,
    pub allow_deletions_enforcement_level: BranchProtectionRuleEnforcementLevel,
    pub merge_queue_enforcement_level: BranchProtectionRuleEnforcementLevel,
    pub required_deployments_enforcement_level: BranchProtectionRuleEnforcementLevel,
    pub required_conversation_resolution_level: BranchProtectionRuleEnforcementLevel,
    pub authorized_actors_only: BranchProtectionRuleBoolean,
    pub authorized_actor_names: BranchProtectionRuleArray,
}

pub struct Repository {
    pub id: usize,
    pub node_id: String,
    pub name: String,
    pub full_name: String,
    pub private: bool,
    pub owner: User,
    pub html_url: String,
    pub description: Option<String>,
    pub fork: bool,
    pub url: String,
    pub forks_url: String,
    pub keys_url: String,
    pub collaborators_url: String,
    pub teams_url: String,
    pub hooks_url: String,
    pub issue_events_url: String,
    pub events_url: String,
    pub assignees_url: String,
    pub branches_url: String,
    pub tags_url: String,
    pub blobs_url: String,
    pub git_tags_url: String,
    pub git_refs_url: String,
    pub trees_url: String,
    pub statuses_url: String,
    pub languages_url: String,
    pub stargazers_url: String,
    pub contributors_url: String,
    pub subscribers_url: String,
    pub subscription_url: String,
    pub commits_url: String,
    pub git_commits_url: String,
    pub comments_url: String,
    pub issue_comment_url: String,
    pub contents_url: String,
    pub compare_url: String,
    pub merges_url: String,
    pub archive_url: String,
    pub downloads_url: String,
    pub issues_url: String,
    pub pulls_url: String,
    pub milestones_url: String,
    pub notifications_url: String,
    pub labels_url: String,
    pub releases_url: String,
    pub deployments_url: String,
    pub updated_at: String,
    pub git_url: String,
    pub ssh_url: String,
    pub clone_url: String,
    pub svn_url: String,
    pub homepage: Option<String>,
    pub size: usize,
    pub stargazers_count: usize,
    pub watchers_count: usize,
    pub language: Option<String>,
    pub has_issues: bool,
    pub has_projects: bool,
    pub has_downloads: bool,
    pub has_wiki: bool,
    pub has_pages: bool,
    pub forks_count: usize,
    pub mirror_url: Option<String>,
    pub archived: bool,
    pub open_issues_count: usize,
    pub license: Option<License>,
    pub forks: usize,
    pub open_issues: usize,
    pub watchers: usize,
    pub default_branch: String,
    pub is_template: bool,
    pub web_commit_signoff_required: bool,
    pub topics: Vec<String>,
    pub visibility: String,
}

pub struct User {
    pub login: String,
    pub id: usize,
    pub node_id: String,
    pub avatar_url: String,
    pub gravatar_id: String,
    pub url: String,
    pub html_url: String,
    pub followers_url: String,
    pub following_url: String,
    pub gists_url: String,
    pub starred_url: String,
    pub subscriptions_url: String,
    pub organizations_url: String,
    pub repos_url: String,
    pub events_url: String,
    pub received_events_url: String,
    pub type_: String,
    pub site_admin: bool,
}

pub struct License {
    pub key: String,
    pub name: String,
    pub spdx_id: String,
    pub url: Option<String>,
    pub node_id: String,
}

pub struct InstallationLite {
    pub id: usize,
    pub node_id: String,
}

pub struct Organization {
    pub login: String,
    pub id: usize,
    pub node_id: String,
    pub url: String,
    pub repos_url: String,
    pub events_url: String,
    pub hooks_url: String,
    pub issues_url: String,
    pub members_url: String,
    pub public_members_url: String,
    pub avatar_url: String,
    pub description: Option<String>,
}

pub struct BranchProtectionRuleDeletedEvent {
    pub rule: BranchProtectionRule,
    pub repository: Repository,
    pub sender: User,
}

pub struct BranchProtectionRuleEditedEvent {
    pub rule: BranchProtectionRule,
    pub repository: Repository,
    pub sender: User,
}

pub struct CheckRunCompletedEvent {
    pub repository: Repository,
    pub sender: User,
}

pub struct CheckRunPullRequest {
    pub url: String,
    pub id: usize,
    pub number: usize,
}

pub struct RepoRef {
    pub id: usize,
    pub url: String,
    pub name: String,
}

pub struct CheckRunDeployment {
    pub url: String,
    pub id: usize,
    pub node_id: String,
    pub task: String,
    pub original_environment: String,
    pub environment: String,
    pub description: Option<String>,
    pub created_at: String,
    pub updated_at: String,
    pub statuses_url: String,
    pub repository_url: String,
}

pub struct App {
    pub id: usize,
    pub node_id: String,
    pub owner: User,
    pub name: String,
    pub description: Option<String>,
    pub external_url: String,
    pub html_url: String,
    pub created_at: String,
    pub updated_at: String,
}

pub struct CheckRunCreatedEvent {
    pub repository: Repository,
    pub sender: User,
}

pub struct CheckRunRequestedActionEvent {
    pub repository: Repository,
    pub sender: User,
}

pub struct CheckRunRerequestedEvent {
    pub repository: Repository,
    pub sender: User,
}

pub struct CheckSuiteCompletedEvent {
    pub repository: Repository,
    pub sender: User,
}

pub struct SimpleCommit {
    pub id: String,
    pub tree_id: String,
    pub message: String,
    pub timestamp: String,
    pub author: Committer,
    pub committer: Committer,
}

pub struct Committer {
    pub name: String,
    pub email: Option<String>,
}

pub struct CheckSuiteRequestedEvent {
    pub repository: Repository,
    pub sender: User,
}

pub struct CheckSuiteRerequestedEvent {
    pub repository: Repository,
    pub sender: User,
}

pub struct CodeScanningAlertAppearedInBranchEvent {
    pub ref_: String,
    pub commit_oid: String,
    pub repository: Repository,
    pub sender: GitHubOrg,
}

pub struct AlertInstance {
    pub ref_: String,
    pub analysis_key: String,
    pub environment: String,
    pub state: String,
}

pub struct GitHubOrg {
}

pub struct CodeScanningAlertClosedByUserEvent {
    pub ref_: String,
    pub commit_oid: String,
    pub repository: Repository,
    pub sender: User,
}

pub struct CodeScanningAlertCreatedEvent {
    pub ref_: String,
    pub commit_oid: String,
    pub repository: Repository,
    pub sender: GitHubOrg,
}

pub struct CodeScanningAlertFixedEvent {
    pub ref_: String,
    pub commit_oid: String,
    pub repository: Repository,
    pub sender: GitHubOrg,
}

pub struct CodeScanningAlertReopenedEvent {
    pub ref_: String,
    pub commit_oid: String,
    pub repository: Repository,
    pub sender: GitHubOrg,
}

pub struct CodeScanningAlertReopenedByUserEvent {
    pub ref_: String,
    pub commit_oid: String,
    pub repository: Repository,
    pub sender: User,
}

pub struct CommitCommentCreatedEvent {
    pub repository: Repository,
    pub sender: User,
}

pub struct CreateEvent {
    pub ref_: String,
    pub ref_type: String,
    pub master_branch: String,
    pub description: Option<String>,
    pub pusher_type: String,
    pub repository: Repository,
    pub sender: User,
}

pub struct DeleteEvent {
    pub ref_: String,
    pub ref_type: String,
    pub pusher_type: String,
    pub repository: Repository,
    pub sender: User,
}

pub struct DependabotAlertCreatedEvent {
    pub repository: Repository,
    pub sender: GitHubOrg,
}

pub struct DependabotAlert {
    pub number: usize,
    pub state: String,
    pub url: String,
    pub html_url: String,
    pub created_at: String,
    pub updated_at: String,
    pub dismissed_at: Option<String>,
    pub dismissed_by: Option<User>,
    pub dismissed_reason: Option<String>,
    pub dismissed_comment: Option<String>,
    pub fixed_at: Option<String>,
}

pub struct DependabotAlertPackage {
    pub name: String,
    pub ecosystem: String,
}

pub struct SecurityAdvisoryCvss {
    pub score: usize,
    pub vector_string: Option<String>,
}

pub struct SecurityAdvisoryCwes {
    pub cwe_id: String,
    pub name: String,
}

pub struct DependabotAlertDismissedEvent {
    pub repository: Repository,
    pub sender: User,
}

pub struct DependabotAlertFixedEvent {
    pub repository: Repository,
    pub sender: GitHubOrg,
}

pub struct DependabotAlertReintroducedEvent {
    pub alert: DependabotAlert,
    pub repository: Repository,
    pub sender: GitHubOrg,
}

pub struct DependabotAlertReopenedEvent {
    pub alert: DependabotAlert,
    pub repository: Repository,
    pub sender: User,
}

pub struct DeployKeyCreatedEvent {
    pub repository: Repository,
    pub sender: User,
}

pub struct DeployKeyDeletedEvent {
    pub repository: Repository,
    pub sender: User,
}

pub struct DeploymentCreatedEvent {
    pub deployment: Deployment,
    pub workflow: Option<Workflow>,
    pub workflow_run: Option<DeploymentWorkflowRun>,
    pub repository: Repository,
    pub sender: User,
}

pub struct Deployment {
    pub url: String,
    pub id: usize,
    pub node_id: String,
    pub sha: String,
    pub ref_: String,
    pub task: String,
    pub original_environment: String,
    pub environment: String,
    pub description: Option<String>,
    pub creator: User,
    pub created_at: String,
    pub updated_at: String,
    pub statuses_url: String,
    pub repository_url: String,
}

pub struct Workflow {
    pub badge_url: String,
    pub created_at: String,
    pub html_url: String,
    pub id: usize,
    pub name: String,
    pub node_id: String,
    pub path: String,
    pub state: String,
    pub updated_at: String,
    pub url: String,
}

pub struct DeploymentWorkflowRun {
    pub id: usize,
    pub name: String,
    pub node_id: String,
    pub head_branch: String,
    pub head_sha: String,
    pub run_number: usize,
    pub event: String,
    pub status: String,
    pub conclusion: Option<String>,
    pub workflow_id: usize,
    pub check_suite_id: usize,
    pub check_suite_node_id: String,
    pub url: String,
    pub html_url: String,
    pub pull_requests: Vec<CheckRunPullRequest>,
    pub created_at: String,
    pub updated_at: String,
    pub actor: User,
    pub triggering_actor: User,
    pub run_attempt: usize,
    pub run_started_at: String,
}

pub struct ReferencedWorkflow {
    pub path: String,
    pub sha: String,
}

pub struct DeploymentStatusCreatedEvent {
    pub deployment: Deployment,
    pub repository: Repository,
    pub sender: User,
}

pub struct DiscussionAnsweredEvent {
    pub repository: Repository,
    pub sender: User,
}

pub struct Discussion {
    pub repository_url: String,
    pub answer_html_url: Option<String>,
    pub answer_chosen_at: Option<String>,
    pub answer_chosen_by: Option<User>,
    pub html_url: String,
    pub id: usize,
    pub node_id: String,
    pub number: usize,
    pub title: String,
    pub user: User,
    pub state: String,
    pub locked: bool,
    pub comments: usize,
    pub created_at: String,
    pub updated_at: String,
    pub author_association: AuthorAssociation,
    pub active_lock_reason: Option<String>,
    pub body: String,
}

pub struct Reactions {
    pub url: String,
    pub total_count: usize,
    pub laugh: usize,
    pub hooray: usize,
    pub confused: usize,
    pub heart: usize,
    pub rocket: usize,
    pub eyes: usize,
}

pub struct DiscussionCategoryChangedEvent {
    pub discussion: Discussion,
    pub repository: Repository,
    pub sender: User,
}

pub struct DiscussionCreatedEvent {
    pub repository: Repository,
    pub sender: User,
}

pub struct DiscussionDeletedEvent {
    pub discussion: Discussion,
    pub repository: Repository,
    pub sender: User,
}

pub struct DiscussionEditedEvent {
    pub discussion: Discussion,
    pub repository: Repository,
    pub sender: User,
}

pub struct DiscussionLabeledEvent {
    pub discussion: Discussion,
    pub label: Label,
    pub repository: Repository,
    pub sender: User,
}

pub struct Label {
    pub id: usize,
    pub node_id: String,
    pub url: String,
    pub name: String,
    pub description: Option<String>,
    pub color: String,
    pub default: bool,
}

pub struct DiscussionLockedEvent {
    pub repository: Repository,
    pub sender: User,
}

pub struct DiscussionPinnedEvent {
    pub discussion: Discussion,
    pub repository: Repository,
    pub sender: User,
}

pub struct DiscussionTransferredEvent {
    pub discussion: Discussion,
    pub repository: Repository,
    pub sender: User,
}

pub struct DiscussionUnansweredEvent {
    pub repository: Repository,
    pub sender: User,
}

pub struct DiscussionUnlabeledEvent {
    pub discussion: Discussion,
    pub label: Label,
    pub repository: Repository,
    pub sender: User,
}

pub struct DiscussionUnlockedEvent {
    pub repository: Repository,
    pub sender: User,
}

pub struct DiscussionUnpinnedEvent {
    pub discussion: Discussion,
    pub repository: Repository,
    pub sender: User,
}

pub struct DiscussionCommentCreatedEvent {
    pub discussion: Discussion,
    pub repository: Repository,
    pub sender: User,
    pub installation: InstallationLite,
}

pub struct DiscussionCommentDeletedEvent {
    pub discussion: Discussion,
    pub repository: Repository,
    pub sender: User,
    pub installation: InstallationLite,
}

pub struct DiscussionCommentEditedEvent {
    pub discussion: Discussion,
    pub repository: Repository,
    pub sender: User,
    pub installation: InstallationLite,
}

pub struct ForkEvent {
    pub repository: Repository,
    pub sender: User,
}

pub struct GithubAppAuthorizationRevokedEvent {
    pub sender: User,
}

pub struct GollumEvent {
    pub repository: Repository,
    pub sender: User,
}

pub struct InstallationCreatedEvent {
    pub installation: Installation,
    pub sender: User,
}

pub struct Installation {
    pub id: usize,
    pub account: User,
    pub repository_selection: String,
    pub access_tokens_url: String,
    pub repositories_url: String,
    pub html_url: String,
    pub app_id: usize,
    pub target_id: usize,
    pub target_type: String,
    pub single_file_name: Option<String>,
    pub suspended_by: Option<User>,
    pub suspended_at: Option<String>,
}

pub struct InstallationDeletedEvent {
    pub installation: Installation,
    pub sender: User,
}

pub struct InstallationNewPermissionsAcceptedEvent {
    pub installation: Installation,
    pub sender: User,
}

pub struct InstallationSuspendEvent {
    pub sender: User,
}

pub struct InstallationUnsuspendEvent {
    pub sender: User,
}

pub struct InstallationRepositoriesAddedEvent {
    pub installation: Installation,
    pub repository_selection: String,
    pub requester: Option<User>,
    pub sender: User,
}

pub struct InstallationRepositoriesRemovedEvent {
    pub installation: Installation,
    pub repository_selection: String,
    pub requester: Option<User>,
    pub sender: User,
}

pub struct IssueCommentCreatedEvent {
    pub comment: IssueComment,
    pub repository: Repository,
    pub sender: User,
}

pub struct Issue {
    pub url: String,
    pub repository_url: String,
    pub labels_url: String,
    pub comments_url: String,
    pub events_url: String,
    pub html_url: String,
    pub id: usize,
    pub node_id: String,
    pub number: usize,
    pub title: String,
    pub user: User,
    pub assignees: Vec<User>,
    pub milestone: Option<Milestone>,
    pub comments: usize,
    pub created_at: String,
    pub updated_at: String,
    pub closed_at: Option<String>,
    pub author_association: AuthorAssociation,
    pub active_lock_reason: Option<String>,
    pub body: Option<String>,
    pub reactions: Reactions,
}

pub struct Milestone {
    pub url: String,
    pub html_url: String,
    pub labels_url: String,
    pub id: usize,
    pub node_id: String,
    pub number: usize,
    pub title: String,
    pub description: Option<String>,
    pub creator: User,
    pub open_issues: usize,
    pub closed_issues: usize,
    pub state: String,
    pub created_at: String,
    pub updated_at: String,
    pub due_on: Option<String>,
    pub closed_at: Option<String>,
}

pub struct IssueComment {
    pub url: String,
    pub html_url: String,
    pub issue_url: String,
    pub id: usize,
    pub node_id: String,
    pub user: User,
    pub created_at: String,
    pub updated_at: String,
    pub author_association: AuthorAssociation,
    pub body: String,
    pub reactions: Reactions,
    pub performed_via_github_app: Option<App>,
}

pub struct IssueCommentDeletedEvent {
    pub comment: IssueComment,
    pub repository: Repository,
    pub sender: User,
}

pub struct IssueCommentEditedEvent {
    pub comment: IssueComment,
    pub repository: Repository,
    pub sender: User,
}

pub struct IssuesAssignedEvent {
    pub issue: Issue,
    pub repository: Repository,
    pub sender: User,
}

pub struct IssuesClosedEvent {
    pub repository: Repository,
    pub sender: User,
}

pub struct IssuesDeletedEvent {
    pub issue: Issue,
    pub repository: Repository,
    pub sender: User,
}

pub struct IssuesDemilestonedEvent {
    pub milestone: Milestone,
    pub repository: Repository,
    pub sender: User,
}

pub struct IssuesEditedEvent {
    pub issue: Issue,
    pub repository: Repository,
    pub sender: User,
}

pub struct IssuesLabeledEvent {
    pub issue: Issue,
    pub repository: Repository,
    pub sender: User,
}

pub struct IssuesLockedEvent {
    pub repository: Repository,
    pub sender: User,
}

pub struct IssuesMilestonedEvent {
    pub milestone: Milestone,
    pub repository: Repository,
    pub sender: User,
}

pub struct IssuesOpenedEvent {
    pub repository: Repository,
    pub sender: User,
}

pub struct IssuesPinnedEvent {
    pub issue: Issue,
    pub repository: Repository,
    pub sender: User,
}

pub struct IssuesReopenedEvent {
    pub repository: Repository,
    pub sender: User,
}

pub struct IssuesTransferredEvent {
    pub issue: Issue,
    pub repository: Repository,
    pub sender: User,
}

pub struct IssuesUnassignedEvent {
    pub issue: Issue,
    pub repository: Repository,
    pub sender: User,
}

pub struct IssuesUnlabeledEvent {
    pub issue: Issue,
    pub repository: Repository,
    pub sender: User,
}

pub struct IssuesUnlockedEvent {
    pub repository: Repository,
    pub sender: User,
}

pub struct IssuesUnpinnedEvent {
    pub issue: Issue,
    pub repository: Repository,
    pub sender: User,
}

pub struct LabelCreatedEvent {
    pub label: Label,
    pub repository: Repository,
    pub sender: User,
}

pub struct LabelDeletedEvent {
    pub label: Label,
    pub repository: Repository,
    pub sender: User,
}

pub struct LabelEditedEvent {
    pub label: Label,
    pub repository: Repository,
    pub sender: User,
}

pub struct MarketplacePurchaseCancelledEvent {
    pub effective_date: String,
}

pub struct MarketplacePurchase {
    pub billing_cycle: String,
    pub unit_count: usize,
    pub on_free_trial: bool,
    pub free_trial_ends_on: Option<String>,
}

pub struct MarketplacePurchaseChangedEvent {
    pub effective_date: String,
}

pub struct MarketplacePurchasePendingChangeEvent {
    pub effective_date: String,
}

pub struct MarketplacePurchasePendingChangeCancelledEvent {
    pub effective_date: String,
}

pub struct MarketplacePurchasePurchasedEvent {
    pub effective_date: String,
}

pub struct MemberAddedEvent {
    pub member: User,
    pub repository: Repository,
    pub sender: User,
}

pub struct MemberEditedEvent {
    pub member: User,
    pub repository: Repository,
    pub sender: User,
}

pub struct MemberRemovedEvent {
    pub member: User,
    pub repository: Repository,
    pub sender: User,
}

pub struct MembershipAddedEvent {
    pub member: User,
    pub sender: User,
    pub team: Team,
    pub organization: Organization,
}

pub struct Team {
    pub name: String,
    pub id: usize,
    pub node_id: String,
    pub slug: String,
    pub description: Option<String>,
    pub privacy: String,
    pub url: String,
    pub html_url: String,
    pub members_url: String,
    pub repositories_url: String,
    pub permission: String,
}

pub struct MembershipRemovedEvent {
    pub scope: String,
    pub member: User,
    pub sender: User,
    pub organization: Organization,
}

pub struct MergeGroupChecksRequestedEvent {
    pub repository: Repository,
    pub sender: User,
}

pub struct MetaDeletedEvent {
    pub hook_id: usize,
    pub repository: Repository,
    pub sender: User,
}

pub struct MilestoneClosedEvent {
    pub repository: Repository,
    pub sender: User,
}

pub struct MilestoneCreatedEvent {
    pub repository: Repository,
    pub sender: User,
}

pub struct MilestoneDeletedEvent {
    pub milestone: Milestone,
    pub repository: Repository,
    pub sender: User,
}

pub struct MilestoneEditedEvent {
    pub milestone: Milestone,
    pub repository: Repository,
    pub sender: User,
}

pub struct MilestoneOpenedEvent {
    pub repository: Repository,
    pub sender: User,
}

pub struct OrgBlockBlockedEvent {
    pub blocked_user: User,
    pub sender: User,
    pub organization: Organization,
}

pub struct OrgBlockUnblockedEvent {
    pub blocked_user: User,
    pub sender: User,
    pub organization: Organization,
}

pub struct OrganizationDeletedEvent {
    pub sender: User,
    pub organization: Organization,
}

pub struct Membership {
    pub url: String,
    pub state: String,
    pub role: String,
    pub organization_url: String,
    pub user: User,
}

pub struct OrganizationMemberAddedEvent {
    pub membership: Membership,
    pub sender: User,
    pub organization: Organization,
}

pub struct OrganizationMemberInvitedEvent {
    pub user: User,
    pub sender: User,
    pub organization: Organization,
}

pub struct OrganizationMemberRemovedEvent {
    pub membership: Membership,
    pub sender: User,
    pub organization: Organization,
}

pub struct OrganizationRenamedEvent {
    pub membership: Membership,
    pub sender: User,
    pub organization: Organization,
}

pub struct PackagePublishedEvent {
    pub repository: Repository,
    pub sender: User,
}

pub struct PackageNPMMetadata {
}

pub struct PackageNugetMetadata {
}

pub struct PackageUpdatedEvent {
    pub repository: Repository,
    pub sender: User,
}

pub struct PageBuildEvent {
    pub id: usize,
    pub repository: Repository,
    pub sender: User,
}

pub struct PingEvent {
    pub zen: String,
    pub hook_id: usize,
}

pub struct ProjectClosedEvent {
    pub project: Project,
    pub repository: Repository,
    pub sender: User,
}

pub struct Project {
    pub owner_url: String,
    pub url: String,
    pub html_url: String,
    pub columns_url: String,
    pub id: usize,
    pub node_id: String,
    pub name: String,
    pub body: Option<String>,
    pub number: usize,
    pub state: String,
    pub creator: User,
    pub created_at: String,
    pub updated_at: String,
}

pub struct ProjectCreatedEvent {
    pub project: Project,
    pub repository: Repository,
    pub sender: User,
}

pub struct ProjectDeletedEvent {
    pub project: Project,
    pub repository: Repository,
    pub sender: User,
}

pub struct ProjectEditedEvent {
    pub project: Project,
    pub repository: Repository,
    pub sender: User,
}

pub struct ProjectReopenedEvent {
    pub project: Project,
    pub repository: Repository,
    pub sender: User,
}

pub struct ProjectCardConvertedEvent {
    pub project_card: ProjectCard,
    pub sender: User,
}

pub struct ProjectCard {
    pub url: String,
    pub project_url: String,
    pub column_url: String,
    pub column_id: usize,
    pub id: usize,
    pub node_id: String,
    pub note: Option<String>,
    pub archived: bool,
    pub creator: User,
    pub created_at: String,
    pub updated_at: String,
}

pub struct ProjectCardCreatedEvent {
    pub project_card: ProjectCard,
    pub sender: User,
}

pub struct ProjectCardDeletedEvent {
    pub project_card: ProjectCard,
    pub sender: User,
}

pub struct ProjectCardEditedEvent {
    pub project_card: ProjectCard,
    pub sender: User,
}

pub struct ProjectCardMovedEvent {
    pub sender: User,
}

pub struct ProjectColumnCreatedEvent {
    pub project_column: ProjectColumn,
    pub sender: User,
}

pub struct ProjectColumn {
    pub url: String,
    pub project_url: String,
    pub cards_url: String,
    pub id: usize,
    pub node_id: String,
    pub name: String,
    pub created_at: String,
    pub updated_at: String,
}

pub struct ProjectColumnDeletedEvent {
    pub project_column: ProjectColumn,
    pub sender: User,
}

pub struct ProjectColumnEditedEvent {
    pub project_column: ProjectColumn,
    pub sender: User,
}

pub struct ProjectColumnMovedEvent {
    pub project_column: ProjectColumn,
    pub sender: User,
}

pub struct ProjectsV2ItemArchivedEvent {
    pub sender: User,
}

pub struct ProjectsV2Item {
    pub id: usize,
    pub node_id: String,
    pub project_node_id: String,
    pub content_node_id: String,
    pub content_type: String,
    pub creator: User,
    pub created_at: String,
    pub updated_at: String,
    pub archived_at: Option<String>,
}

pub struct ProjectsV2ItemConvertedEvent {
    pub sender: User,
}

pub struct ProjectsV2ItemCreatedEvent {
    pub sender: User,
}

pub struct ProjectsV2ItemDeletedEvent {
    pub projects_v2_item: ProjectsV2Item,
    pub sender: User,
}

pub struct ProjectsV2ItemEditedEvent {
    pub projects_v2_item: ProjectsV2Item,
    pub sender: User,
}

pub struct ProjectsV2ItemReorderedEvent {
    pub projects_v2_item: ProjectsV2Item,
    pub sender: User,
}

pub struct ProjectsV2ItemRestoredEvent {
    pub sender: User,
}

pub struct PublicEvent {
    pub sender: User,
}

pub struct PullRequestAssignedEvent {
    pub number: usize,
    pub pull_request: PullRequest,
    pub assignee: User,
    pub repository: Repository,
    pub sender: User,
}

pub struct PullRequest {
    pub url: String,
    pub id: usize,
    pub node_id: String,
    pub html_url: String,
    pub diff_url: String,
    pub patch_url: String,
    pub issue_url: String,
    pub number: usize,
    pub state: String,
    pub locked: bool,
    pub title: String,
    pub user: User,
    pub body: Option<String>,
    pub created_at: String,
    pub updated_at: String,
    pub closed_at: Option<String>,
    pub merged_at: Option<String>,
    pub merge_commit_sha: Option<String>,
    pub assignee: Option<User>,
    pub assignees: Vec<User>,
    pub requested_teams: Vec<Team>,
    pub labels: Vec<Label>,
    pub milestone: Option<Milestone>,
    pub commits_url: String,
    pub review_comments_url: String,
    pub review_comment_url: String,
    pub comments_url: String,
    pub statuses_url: String,
    pub author_association: AuthorAssociation,
    pub auto_merge: Option<PullRequestAutoMerge>,
    pub active_lock_reason: Option<String>,
    pub draft: bool,
    pub merged: Option<bool>,
    pub mergeable: Option<bool>,
    pub rebaseable: Option<bool>,
    pub mergeable_state: String,
    pub merged_by: Option<User>,
    pub comments: usize,
    pub review_comments: usize,
    pub maintainer_can_modify: bool,
    pub commits: usize,
    pub additions: usize,
    pub deletions: usize,
    pub changed_files: usize,
}

pub struct Link {
    pub href: String,
}

pub struct PullRequestAutoMerge {
    pub enabled_by: User,
    pub merge_method: String,
    pub commit_title: String,
    pub commit_message: String,
}

pub struct PullRequestAutoMergeDisabledEvent {
    pub number: usize,
    pub pull_request: PullRequest,
    pub reason: String,
    pub repository: Repository,
    pub sender: User,
}

pub struct PullRequestAutoMergeEnabledEvent {
    pub number: usize,
    pub pull_request: PullRequest,
    pub reason: String,
    pub repository: Repository,
    pub sender: User,
}

pub struct PullRequestClosedEvent {
    pub number: usize,
    pub repository: Repository,
    pub sender: User,
}

pub struct PullRequestConvertedToDraftEvent {
    pub number: usize,
    pub repository: Repository,
    pub sender: User,
}

pub struct PullRequestDequeuedEvent {
    pub number: usize,
    pub reason: String,
    pub pull_request: PullRequest,
    pub repository: Repository,
    pub sender: User,
}

pub struct PullRequestEditedEvent {
    pub number: usize,
    pub pull_request: PullRequest,
    pub repository: Repository,
    pub sender: User,
}

pub struct PullRequestLabeledEvent {
    pub number: usize,
    pub pull_request: PullRequest,
    pub label: Label,
    pub repository: Repository,
    pub sender: User,
}

pub struct PullRequestLockedEvent {
    pub number: usize,
    pub pull_request: PullRequest,
    pub repository: Repository,
    pub sender: User,
}

pub struct PullRequestOpenedEvent {
    pub number: usize,
    pub repository: Repository,
    pub sender: User,
}

pub struct PullRequestQueuedEvent {
    pub number: usize,
    pub pull_request: PullRequest,
    pub repository: Repository,
    pub sender: User,
}

pub struct PullRequestReadyForReviewEvent {
    pub number: usize,
    pub repository: Repository,
    pub sender: User,
}

pub struct PullRequestReopenedEvent {
    pub number: usize,
    pub repository: Repository,
    pub sender: User,
}

pub struct PullRequestSynchronizeEvent {
    pub number: usize,
    pub before: String,
    pub after: String,
    pub pull_request: PullRequest,
    pub repository: Repository,
    pub sender: User,
}

pub struct PullRequestUnassignedEvent {
    pub number: usize,
    pub pull_request: PullRequest,
    pub assignee: User,
    pub repository: Repository,
    pub sender: User,
}

pub struct PullRequestUnlabeledEvent {
    pub number: usize,
    pub pull_request: PullRequest,
    pub label: Label,
    pub repository: Repository,
    pub sender: User,
}

pub struct PullRequestUnlockedEvent {
    pub number: usize,
    pub pull_request: PullRequest,
    pub repository: Repository,
    pub sender: User,
}

pub struct PullRequestReviewDismissedEvent {
    pub pull_request: SimplePullRequest,
    pub repository: Repository,
    pub sender: User,
}

pub struct PullRequestReview {
    pub id: usize,
    pub node_id: String,
    pub user: User,
    pub body: Option<String>,
    pub commit_id: String,
    pub submitted_at: Option<String>,
    pub state: String,
    pub html_url: String,
    pub pull_request_url: String,
    pub author_association: AuthorAssociation,
}

pub struct SimplePullRequest {
    pub url: String,
    pub id: usize,
    pub node_id: String,
    pub html_url: String,
    pub diff_url: String,
    pub patch_url: String,
    pub issue_url: String,
    pub number: usize,
    pub state: String,
    pub locked: bool,
    pub title: String,
    pub user: User,
    pub body: Option<String>,
    pub created_at: String,
    pub updated_at: String,
    pub closed_at: Option<String>,
    pub merged_at: Option<String>,
    pub merge_commit_sha: Option<String>,
    pub assignee: Option<User>,
    pub assignees: Vec<User>,
    pub requested_teams: Vec<Team>,
    pub labels: Vec<Label>,
    pub milestone: Option<Milestone>,
    pub draft: bool,
    pub commits_url: String,
    pub review_comments_url: String,
    pub review_comment_url: String,
    pub comments_url: String,
    pub statuses_url: String,
    pub author_association: AuthorAssociation,
    pub auto_merge: Option<PullRequestAutoMerge>,
    pub active_lock_reason: Option<String>,
}

pub struct PullRequestReviewEditedEvent {
    pub review: PullRequestReview,
    pub pull_request: SimplePullRequest,
    pub repository: Repository,
    pub sender: User,
}

pub struct PullRequestReviewSubmittedEvent {
    pub review: PullRequestReview,
    pub pull_request: SimplePullRequest,
    pub repository: Repository,
    pub sender: User,
}

pub struct PullRequestReviewCommentCreatedEvent {
    pub comment: PullRequestReviewComment,
    pub repository: Repository,
    pub sender: User,
}

pub struct PullRequestReviewComment {
    pub url: String,
    pub pull_request_review_id: usize,
    pub id: usize,
    pub node_id: String,
    pub diff_hunk: String,
    pub path: String,
    pub position: Option<usize>,
    pub original_position: usize,
    pub commit_id: String,
    pub original_commit_id: String,
    pub user: User,
    pub body: String,
    pub created_at: String,
    pub updated_at: String,
    pub html_url: String,
    pub pull_request_url: String,
    pub author_association: AuthorAssociation,
    pub reactions: Reactions,
    pub start_line: Option<usize>,
    pub original_start_line: Option<usize>,
    pub start_side: Option<String>,
    pub line: Option<usize>,
    pub original_line: usize,
    pub side: String,
}

pub struct PullRequestReviewCommentDeletedEvent {
    pub comment: PullRequestReviewComment,
    pub repository: Repository,
    pub sender: User,
}

pub struct PullRequestReviewCommentEditedEvent {
    pub comment: PullRequestReviewComment,
    pub repository: Repository,
    pub sender: User,
}

pub struct PullRequestReviewThreadResolvedEvent {
    pub pull_request: SimplePullRequest,
    pub repository: Repository,
    pub sender: User,
}

pub struct PullRequestReviewThreadUnresolvedEvent {
    pub pull_request: SimplePullRequest,
    pub repository: Repository,
    pub sender: User,
}

pub struct PushEvent {
    pub ref_: String,
    pub before: String,
    pub after: String,
    pub created: bool,
    pub deleted: bool,
    pub forced: bool,
    pub base_ref: Option<String>,
    pub compare: String,
    pub commits: Vec<Commit>,
    pub head_commit: Option<Commit>,
    pub repository: Repository,
    pub pusher: Committer,
    pub sender: User,
}

pub struct Commit {
    pub id: String,
    pub tree_id: String,
    pub distinct: bool,
    pub message: String,
    pub timestamp: String,
    pub url: String,
    pub author: Committer,
    pub committer: Committer,
    pub added: Vec<String>,
    pub modified: Vec<String>,
    pub removed: Vec<String>,
}

pub struct RegistryPackagePublishedEvent {
    pub repository: Repository,
    pub sender: User,
}

pub struct RegistryPackageUpdatedEvent {
    pub repository: Repository,
    pub sender: User,
}

pub struct ReleaseCreatedEvent {
    pub release: Release,
    pub repository: Repository,
    pub sender: User,
}

pub struct Release {
    pub url: String,
    pub assets_url: String,
    pub upload_url: String,
    pub html_url: String,
    pub id: usize,
    pub node_id: String,
    pub tag_name: String,
    pub target_commitish: String,
    pub name: String,
    pub draft: bool,
    pub author: User,
    pub prerelease: bool,
    pub created_at: Option<String>,
    pub published_at: Option<String>,
    pub assets: Vec<ReleaseAsset>,
    pub tarball_url: Option<String>,
    pub zipball_url: Option<String>,
    pub body: String,
}

pub struct ReleaseAsset {
    pub url: String,
    pub browser_download_url: String,
    pub id: usize,
    pub node_id: String,
    pub name: String,
    pub label: Option<String>,
    pub content_type: String,
    pub size: usize,
    pub download_count: usize,
    pub created_at: String,
    pub updated_at: String,
}

pub struct ReleaseDeletedEvent {
    pub release: Release,
    pub repository: Repository,
    pub sender: User,
}

pub struct ReleaseEditedEvent {
    pub release: Release,
    pub repository: Repository,
    pub sender: User,
}

pub struct ReleasePrereleasedEvent {
    pub repository: Repository,
    pub sender: User,
}

pub struct ReleasePublishedEvent {
    pub repository: Repository,
    pub sender: User,
}

pub struct ReleaseReleasedEvent {
    pub release: Release,
    pub repository: Repository,
    pub sender: User,
}

pub struct ReleaseUnpublishedEvent {
    pub repository: Repository,
    pub sender: User,
}

pub struct RepositoryArchivedEvent {
    pub sender: User,
}

pub struct RepositoryCreatedEvent {
    pub repository: Repository,
    pub sender: User,
}

pub struct RepositoryDeletedEvent {
    pub repository: Repository,
    pub sender: User,
}

pub struct RepositoryEditedEvent {
    pub repository: Repository,
    pub sender: User,
}

pub struct RepositoryPrivatizedEvent {
    pub sender: User,
}

pub struct RepositoryPublicizedEvent {
    pub sender: User,
}

pub struct RepositoryRenamedEvent {
    pub repository: Repository,
    pub sender: User,
}

pub struct RepositoryTransferredEvent {
    pub repository: Repository,
    pub sender: User,
}

pub struct RepositoryUnarchivedEvent {
    pub sender: User,
}

pub struct RepositoryDispatchEvent {
    pub action: String,
    pub branch: String,
    pub repository: Repository,
    pub sender: User,
    pub installation: InstallationLite,
}

pub struct RepositoryImportEvent {
    pub status: String,
    pub repository: Repository,
    pub sender: User,
}

pub struct RepositoryVulnerabilityAlertCreateEvent {
    pub repository: Repository,
    pub sender: GitHubOrg,
}

pub struct RepositoryVulnerabilityAlertAlert {
    pub id: usize,
    pub number: usize,
    pub node_id: String,
    pub state: String,
    pub affected_range: String,
    pub affected_package_name: String,
    pub severity: String,
    pub ghsa_id: String,
    pub external_reference: String,
    pub external_identifier: String,
    pub fixed_in: String,
    pub created_at: String,
}

pub struct RepositoryVulnerabilityAlertDismissEvent {
    pub repository: Repository,
    pub sender: GitHubOrg,
}

pub struct RepositoryVulnerabilityAlertReopenEvent {
    pub repository: Repository,
    pub sender: GitHubOrg,
}

pub struct RepositoryVulnerabilityAlertResolveEvent {
    pub repository: Repository,
    pub sender: GitHubOrg,
}

pub struct SecretScanningAlertCreatedEvent {
    pub repository: Repository,
}

pub struct SecretScanningAlertReopenedEvent {
    pub repository: Repository,
    pub sender: User,
}

pub struct SecretScanningAlertResolvedEvent {
    pub repository: Repository,
    pub sender: User,
}

pub struct SecurityAdvisoryPerformedEvent {
}

pub struct SecurityAdvisoryPublishedEvent {
}

pub struct SecurityAdvisoryUpdatedEvent {
}

pub struct SecurityAdvisoryWithdrawnEvent {
}

pub struct SponsorshipCancelledEvent {
    pub sender: User,
}

pub struct SponsorshipTier {
    pub node_id: String,
    pub created_at: String,
    pub description: String,
    pub monthly_price_in_cents: usize,
    pub monthly_price_in_dollars: usize,
    pub name: String,
    pub is_one_time: bool,
    pub is_custom_ammount: bool,
}

pub struct SponsorshipCreatedEvent {
    pub sender: User,
}

pub struct SponsorshipEditedEvent {
    pub sender: User,
}

pub struct SponsorshipPendingCancellationEvent {
    pub sender: User,
}

pub struct SponsorshipPendingTierChangeEvent {
    pub sender: User,
}

pub struct SponsorshipTierChangedEvent {
    pub sender: User,
}

pub struct StarCreatedEvent {
    pub starred_at: String,
    pub repository: Repository,
    pub sender: User,
}

pub struct StarDeletedEvent {
    pub starred_at: Option<()>,
    pub repository: Repository,
    pub sender: User,
}

pub struct StatusEvent {
    pub id: usize,
    pub sha: String,
    pub name: String,
    pub target_url: Option<String>,
    pub context: String,
    pub description: Option<String>,
    pub state: String,
    pub created_at: String,
    pub updated_at: String,
    pub repository: Repository,
    pub sender: User,
}

pub struct TeamAddedToRepositoryEvent {
    pub team: Team,
    pub sender: User,
    pub organization: Organization,
}

pub struct TeamCreatedEvent {
    pub team: Team,
    pub sender: User,
    pub organization: Organization,
}

pub struct TeamDeletedEvent {
    pub team: Team,
    pub sender: User,
    pub organization: Organization,
}

pub struct TeamEditedEvent {
    pub team: Team,
    pub sender: User,
    pub organization: Organization,
}

pub struct TeamRemovedFromRepositoryEvent {
    pub team: Team,
    pub sender: User,
    pub organization: Organization,
}

pub struct TeamAddEvent {
    pub team: Team,
    pub repository: Repository,
    pub sender: User,
    pub organization: Organization,
}

pub struct WatchStartedEvent {
    pub repository: Repository,
    pub sender: User,
}

pub struct WorkflowDispatchEvent {
    pub ref_: String,
    pub repository: Repository,
    pub sender: User,
    pub workflow: String,
}

pub struct WorkflowJobCompletedEvent {
    pub repository: Repository,
    pub sender: User,
}

pub struct WorkflowJob {
    pub id: usize,
    pub run_id: usize,
    pub run_attempt: usize,
    pub run_url: String,
    pub head_sha: String,
    pub node_id: String,
    pub name: String,
    pub check_run_url: String,
    pub html_url: String,
    pub url: String,
    pub status: String,
    pub steps: Vec<WorkflowStep>,
    pub conclusion: Option<String>,
    pub labels: Vec<String>,
    pub runner_id: Option<usize>,
    pub runner_name: Option<String>,
    pub runner_group_id: Option<usize>,
    pub runner_group_name: Option<String>,
    pub started_at: String,
    pub completed_at: Option<String>,
}

pub struct WorkflowStepInProgress {
    pub name: String,
    pub conclusion: Option<()>,
    pub number: usize,
    pub started_at: String,
    pub completed_at: Option<()>,
}

pub struct WorkflowStepCompleted {
    pub name: String,
    pub conclusion: String,
    pub number: usize,
    pub started_at: String,
    pub completed_at: String,
}

pub struct WorkflowJobInProgressEvent {
    pub repository: Repository,
    pub sender: User,
}

pub struct WorkflowJobQueuedEvent {
    pub repository: Repository,
    pub sender: User,
}

pub struct WorkflowRunCompletedEvent {
    pub repository: Repository,
    pub sender: User,
    pub workflow: Workflow,
}

pub struct WorkflowRun {
    pub artifacts_url: String,
    pub cancel_url: String,
    pub check_suite_url: String,
    pub check_suite_id: usize,
    pub check_suite_node_id: String,
    pub conclusion: Option<String>,
    pub created_at: String,
    pub event: String,
    pub head_branch: String,
    pub head_commit: SimpleCommit,
    pub head_repository: RepositoryLite,
    pub head_sha: String,
    pub path: String,
    pub display_title: String,
    pub html_url: String,
    pub id: usize,
    pub jobs_url: String,
    pub logs_url: String,
    pub node_id: String,
    pub name: String,
    pub repository: RepositoryLite,
    pub rerun_url: String,
    pub run_number: usize,
    pub status: String,
    pub updated_at: String,
    pub url: String,
    pub workflow_id: usize,
    pub workflow_url: String,
    pub run_attempt: usize,
    pub run_started_at: String,
    pub previous_attempt_url: Option<String>,
    pub actor: User,
    pub triggering_actor: User,
}

pub struct RepositoryLite {
    pub archive_url: String,
    pub assignees_url: String,
    pub blobs_url: String,
    pub branches_url: String,
    pub collaborators_url: String,
    pub comments_url: String,
    pub commits_url: String,
    pub compare_url: String,
    pub contents_url: String,
    pub contributors_url: String,
    pub deployments_url: String,
    pub description: Option<String>,
    pub downloads_url: String,
    pub events_url: String,
    pub fork: bool,
    pub forks_url: String,
    pub full_name: String,
    pub git_commits_url: String,
    pub git_refs_url: String,
    pub git_tags_url: String,
    pub hooks_url: String,
    pub html_url: String,
    pub id: usize,
    pub issue_comment_url: String,
    pub issue_events_url: String,
    pub issues_url: String,
    pub keys_url: String,
    pub labels_url: String,
    pub languages_url: String,
    pub merges_url: String,
    pub milestones_url: String,
    pub name: String,
    pub node_id: String,
    pub notifications_url: String,
    pub owner: User,
    pub private: bool,
    pub pulls_url: String,
    pub releases_url: String,
    pub stargazers_url: String,
    pub statuses_url: String,
    pub subscribers_url: String,
    pub subscription_url: String,
    pub tags_url: String,
    pub teams_url: String,
    pub trees_url: String,
    pub url: String,
}

pub struct WorkflowRunInProgressEvent {
    pub repository: Repository,
    pub sender: User,
    pub workflow: Workflow,
    pub workflow_run: WorkflowRun,
}

pub struct WorkflowRunRequestedEvent {
    pub repository: Repository,
    pub sender: User,
    pub workflow: Workflow,
    pub workflow_run: WorkflowRun,
}

pub struct EventPayloadMap {
    pub branch_protection_rule: BranchProtectionRuleEvent,
    pub check_run: CheckRunEvent,
    pub check_suite: CheckSuiteEvent,
    pub code_scanning_alert: CodeScanningAlertEvent,
    pub commit_comment: CommitCommentEvent,
    pub create: CreateEvent,
    pub delete: DeleteEvent,
    pub dependabot_alert: DependabotAlertEvent,
    pub deploy_key: DeployKeyEvent,
    pub deployment: DeploymentEvent,
    pub deployment_status: DeploymentStatusEvent,
    pub discussion: DiscussionEvent,
    pub discussion_comment: DiscussionCommentEvent,
    pub fork: ForkEvent,
    pub github_app_authorization: GithubAppAuthorizationEvent,
    pub gollum: GollumEvent,
    pub installation: InstallationEvent,
    pub installation_repositories: InstallationRepositoriesEvent,
    pub issue_comment: IssueCommentEvent,
    pub issues: IssuesEvent,
    pub label: LabelEvent,
    pub marketplace_purchase: MarketplacePurchaseEvent,
    pub member: MemberEvent,
    pub membership: MembershipEvent,
    pub merge_group: MergeGroupEvent,
    pub meta: MetaEvent,
    pub milestone: MilestoneEvent,
    pub org_block: OrgBlockEvent,
    pub organization: OrganizationEvent,
    pub package: PackageEvent,
    pub page_build: PageBuildEvent,
    pub ping: PingEvent,
    pub project: ProjectEvent,
    pub project_card: ProjectCardEvent,
    pub project_column: ProjectColumnEvent,
    pub projects_v2_item: ProjectsV2ItemEvent,
    pub public: PublicEvent,
    pub pull_request: PullRequestEvent,
    pub pull_request_review: PullRequestReviewEvent,
    pub pull_request_review_comment: PullRequestReviewCommentEvent,
    pub pull_request_review_thread: PullRequestReviewThreadEvent,
    pub push: PushEvent,
    pub registry_package: RegistryPackageEvent,
    pub release: ReleaseEvent,
    pub repository: RepositoryEvent,
    pub repository_dispatch: RepositoryDispatchEvent,
    pub repository_import: RepositoryImportEvent,
    pub repository_vulnerability_alert: RepositoryVulnerabilityAlertEvent,
    pub secret_scanning_alert: SecretScanningAlertEvent,
    pub security_advisory: SecurityAdvisoryEvent,
    pub sponsorship: SponsorshipEvent,
    pub star: StarEvent,
    pub status: StatusEvent,
    pub team: TeamEvent,
    pub team_add: TeamAddEvent,
    pub watch: WatchEvent,
    pub workflow_dispatch: WorkflowDispatchEvent,
    pub workflow_job: WorkflowJobEvent,
    pub workflow_run: WorkflowRunEvent,
}

pub type Asset = ReleaseAsset;

pub type WebhookEvent = Schema;

pub type WebhookEventMap = EventPayloadMap;

/// The payload of a pull request whose review request was removed.
pub struct PullRequestReviewRequestRemovedEvent {
}

/// The payload of a pull request for which a review was requested.
pub struct PullRequestReviewRequestedEvent {
}

} // verus!
