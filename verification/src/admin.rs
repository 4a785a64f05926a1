//! Organization administration: audit logs, admin API keys, usage, invites,
//! users, groups, roles, data retention, spend alerts, certificates and projects.
use vstd::prelude::*;
use serde_json::Value;
use std::collections::BTreeMap;
use crate::common::ListOrder;
use crate::error::{blank_message, ErrorKind, OpenAIError};
use crate::ids::{encoded_id, path_id};
use crate::literal::{Literal, OpenLiteral};
use crate::query::{
    form_query, opt_i64_decimal, opt_literals, opt_pair, opt_repeated, opt_texts, opt_u32_decimal,
    opt_view, path_with_query, with_query, QueryPairs, opt_bool_text, inclusion_key,
    inclusion_key_text,
};
use crate::literal::opt_literal;
use crate::request::{plain, ApiRequest, BodyView, HttpMethod, RequestBody};
use crate::text::{is_blank_spec, push_str, str_eq};

verus! {

/// JSON value returned by the flexible admin endpoint surface.
pub type AdminValue = Value;


/// Organization admin API key object type.
#[derive(Clone, Debug, PartialEq, Eq)]
pub enum AdminApiKeyObject {
    OrganizationAdminApiKey,
    /// A value this library does not know, kept as received.
    Unknown(String),
}

impl Literal for AdminApiKeyObject {
    open spec fn literal(&self) -> Seq<char> {
        match self {
            AdminApiKeyObject::OrganizationAdminApiKey => "organization.admin_api_key"@,
            AdminApiKeyObject::Unknown(text) => text@,
        }
    }

    fn to_text(&self) -> (r: String) {
        self.as_str().to_string()
    }
}

impl OpenLiteral for AdminApiKeyObject {
    open spec fn known(text: Seq<char>) -> Option<AdminApiKeyObject> {
        if text == "organization.admin_api_key"@ {
            Some(AdminApiKeyObject::OrganizationAdminApiKey)
        } else {
            None
        }
    }

    open spec fn is_unknown(&self) -> bool {
        self is Unknown
    }

    proof fn lemma_known_literal(value: Self) {
        reveal_strlit("organization.admin_api_key");
        assert("organization.admin_api_key"@.len() == 26);
    }

    proof fn lemma_known_text(text: Seq<char>) {
    }
}

impl AdminApiKeyObject {
    /// The text the API uses for this value.
    pub fn as_str(&self) -> (r: &str)
        ensures
            r@ == self.literal(),
    {
        match self {
            AdminApiKeyObject::OrganizationAdminApiKey => "organization.admin_api_key",
            AdminApiKeyObject::Unknown(text) => text.as_str(),
        }
    }

    /// The value a text names; a text no variant uses is kept as `Unknown`.
    pub fn from_text(value: &str) -> (r: AdminApiKeyObject)
        ensures
            r.literal() == value@,
            r.is_unknown() == (AdminApiKeyObject::known(value@) is None),
            AdminApiKeyObject::known(value@) matches Some(k) ==> r == k,
    {
        if str_eq(value, "organization.admin_api_key") {
            AdminApiKeyObject::OrganizationAdminApiKey
        } else {
            AdminApiKeyObject::Unknown(value.to_string())
        }
    }
}

impl Default for AdminApiKeyObject {
    fn default() -> (r: AdminApiKeyObject)
        ensures
            r.literal() == Seq::<char>::empty(),
            r is Unknown,
    {
        AdminApiKeyObject::Unknown(String::new())
    }
}

/// Organization admin API key deletion object type.
#[derive(Clone, Debug, PartialEq, Eq)]
pub enum AdminApiKeyDeletedObject {
    OrganizationAdminApiKeyDeleted,
    /// A value this library does not know, kept as received.
    Unknown(String),
}

impl Literal for AdminApiKeyDeletedObject {
    open spec fn literal(&self) -> Seq<char> {
        match self {
            AdminApiKeyDeletedObject::OrganizationAdminApiKeyDeleted => "organization.admin_api_key.deleted"@,
            AdminApiKeyDeletedObject::Unknown(text) => text@,
        }
    }

    fn to_text(&self) -> (r: String) {
        self.as_str().to_string()
    }
}

impl OpenLiteral for AdminApiKeyDeletedObject {
    open spec fn known(text: Seq<char>) -> Option<AdminApiKeyDeletedObject> {
        if text == "organization.admin_api_key.deleted"@ {
            Some(AdminApiKeyDeletedObject::OrganizationAdminApiKeyDeleted)
        } else {
            None
        }
    }

    open spec fn is_unknown(&self) -> bool {
        self is Unknown
    }

    proof fn lemma_known_literal(value: Self) {
        reveal_strlit("organization.admin_api_key.deleted");
        assert("organization.admin_api_key.deleted"@.len() == 34);
    }

    proof fn lemma_known_text(text: Seq<char>) {
    }
}

impl AdminApiKeyDeletedObject {
    /// The text the API uses for this value.
    pub fn as_str(&self) -> (r: &str)
        ensures
            r@ == self.literal(),
    {
        match self {
            AdminApiKeyDeletedObject::OrganizationAdminApiKeyDeleted => "organization.admin_api_key.deleted",
            AdminApiKeyDeletedObject::Unknown(text) => text.as_str(),
        }
    }

    /// The value a text names; a text no variant uses is kept as `Unknown`.
    pub fn from_text(value: &str) -> (r: AdminApiKeyDeletedObject)
        ensures
            r.literal() == value@,
            r.is_unknown() == (AdminApiKeyDeletedObject::known(value@) is None),
            AdminApiKeyDeletedObject::known(value@) matches Some(k) ==> r == k,
    {
        if str_eq(value, "organization.admin_api_key.deleted") {
            AdminApiKeyDeletedObject::OrganizationAdminApiKeyDeleted
        } else {
            AdminApiKeyDeletedObject::Unknown(value.to_string())
        }
    }
}

impl Default for AdminApiKeyDeletedObject {
    fn default() -> (r: AdminApiKeyDeletedObject)
        ensures
            r.literal() == Seq::<char>::empty(),
            r is Unknown,
    {
        AdminApiKeyDeletedObject::Unknown(String::new())
    }
}

/// Project API key object type.
#[derive(Clone, Debug, PartialEq, Eq)]
pub enum ProjectApiKeyObject {
    OrganizationProjectApiKey,
    /// A value this library does not know, kept as received.
    Unknown(String),
}

impl Literal for ProjectApiKeyObject {
    open spec fn literal(&self) -> Seq<char> {
        match self {
            ProjectApiKeyObject::OrganizationProjectApiKey => "organization.project.api_key"@,
            ProjectApiKeyObject::Unknown(text) => text@,
        }
    }

    fn to_text(&self) -> (r: String) {
        self.as_str().to_string()
    }
}

impl OpenLiteral for ProjectApiKeyObject {
    open spec fn known(text: Seq<char>) -> Option<ProjectApiKeyObject> {
        if text == "organization.project.api_key"@ {
            Some(ProjectApiKeyObject::OrganizationProjectApiKey)
        } else {
            None
        }
    }

    open spec fn is_unknown(&self) -> bool {
        self is Unknown
    }

    proof fn lemma_known_literal(value: Self) {
        reveal_strlit("organization.project.api_key");
        assert("organization.project.api_key"@.len() == 28);
    }

    proof fn lemma_known_text(text: Seq<char>) {
    }
}

impl ProjectApiKeyObject {
    /// The text the API uses for this value.
    pub fn as_str(&self) -> (r: &str)
        ensures
            r@ == self.literal(),
    {
        match self {
            ProjectApiKeyObject::OrganizationProjectApiKey => "organization.project.api_key",
            ProjectApiKeyObject::Unknown(text) => text.as_str(),
        }
    }

    /// The value a text names; a text no variant uses is kept as `Unknown`.
    pub fn from_text(value: &str) -> (r: ProjectApiKeyObject)
        ensures
            r.literal() == value@,
            r.is_unknown() == (ProjectApiKeyObject::known(value@) is None),
            ProjectApiKeyObject::known(value@) matches Some(k) ==> r == k,
    {
        if str_eq(value, "organization.project.api_key") {
            ProjectApiKeyObject::OrganizationProjectApiKey
        } else {
            ProjectApiKeyObject::Unknown(value.to_string())
        }
    }
}

impl Default for ProjectApiKeyObject {
    fn default() -> (r: ProjectApiKeyObject)
        ensures
            r.literal() == Seq::<char>::empty(),
            r is Unknown,
    {
        ProjectApiKeyObject::Unknown(String::new())
    }
}

/// Project API key deletion object type.
#[derive(Clone, Debug, PartialEq, Eq)]
pub enum ProjectApiKeyDeletedObject {
    OrganizationProjectApiKeyDeleted,
    /// A value this library does not know, kept as received.
    Unknown(String),
}

impl Literal for ProjectApiKeyDeletedObject {
    open spec fn literal(&self) -> Seq<char> {
        match self {
            ProjectApiKeyDeletedObject::OrganizationProjectApiKeyDeleted => "organization.project.api_key.deleted"@,
            ProjectApiKeyDeletedObject::Unknown(text) => text@,
        }
    }

    fn to_text(&self) -> (r: String) {
        self.as_str().to_string()
    }
}

impl OpenLiteral for ProjectApiKeyDeletedObject {
    open spec fn known(text: Seq<char>) -> Option<ProjectApiKeyDeletedObject> {
        if text == "organization.project.api_key.deleted"@ {
            Some(ProjectApiKeyDeletedObject::OrganizationProjectApiKeyDeleted)
        } else {
            None
        }
    }

    open spec fn is_unknown(&self) -> bool {
        self is Unknown
    }

    proof fn lemma_known_literal(value: Self) {
        reveal_strlit("organization.project.api_key.deleted");
        assert("organization.project.api_key.deleted"@.len() == 36);
    }

    proof fn lemma_known_text(text: Seq<char>) {
    }
}

impl ProjectApiKeyDeletedObject {
    /// The text the API uses for this value.
    pub fn as_str(&self) -> (r: &str)
        ensures
            r@ == self.literal(),
    {
        match self {
            ProjectApiKeyDeletedObject::OrganizationProjectApiKeyDeleted => "organization.project.api_key.deleted",
            ProjectApiKeyDeletedObject::Unknown(text) => text.as_str(),
        }
    }

    /// The value a text names; a text no variant uses is kept as `Unknown`.
    pub fn from_text(value: &str) -> (r: ProjectApiKeyDeletedObject)
        ensures
            r.literal() == value@,
            r.is_unknown() == (ProjectApiKeyDeletedObject::known(value@) is None),
            ProjectApiKeyDeletedObject::known(value@) matches Some(k) ==> r == k,
    {
        if str_eq(value, "organization.project.api_key.deleted") {
            ProjectApiKeyDeletedObject::OrganizationProjectApiKeyDeleted
        } else {
            ProjectApiKeyDeletedObject::Unknown(value.to_string())
        }
    }
}

impl Default for ProjectApiKeyDeletedObject {
    fn default() -> (r: ProjectApiKeyDeletedObject)
        ensures
            r.literal() == Seq::<char>::empty(),
            r is Unknown,
    {
        ProjectApiKeyDeletedObject::Unknown(String::new())
    }
}

/// Owner type for a project API key.
#[derive(Clone, Debug, PartialEq, Eq)]
pub enum ProjectApiKeyOwnerType {
    User,
    ServiceAccount,
    /// A value this library does not know, kept as received.
    Unknown(String),
}

impl Literal for ProjectApiKeyOwnerType {
    open spec fn literal(&self) -> Seq<char> {
        match self {
            ProjectApiKeyOwnerType::User => "user"@,
            ProjectApiKeyOwnerType::ServiceAccount => "service_account"@,
            ProjectApiKeyOwnerType::Unknown(text) => text@,
        }
    }

    fn to_text(&self) -> (r: String) {
        self.as_str().to_string()
    }
}

impl OpenLiteral for ProjectApiKeyOwnerType {
    open spec fn known(text: Seq<char>) -> Option<ProjectApiKeyOwnerType> {
        if text == "user"@ {
            Some(ProjectApiKeyOwnerType::User)
        } else if text == "service_account"@ {
            Some(ProjectApiKeyOwnerType::ServiceAccount)
        } else {
            None
        }
    }

    open spec fn is_unknown(&self) -> bool {
        self is Unknown
    }

    proof fn lemma_known_literal(value: Self) {
        reveal_strlit("user");
        reveal_strlit("service_account");
        assert("user"@.len() == 4);
        assert("service_account"@.len() == 15);
    }

    proof fn lemma_known_text(text: Seq<char>) {
    }
}

impl ProjectApiKeyOwnerType {
    /// The text the API uses for this value.
    pub fn as_str(&self) -> (r: &str)
        ensures
            r@ == self.literal(),
    {
        match self {
            ProjectApiKeyOwnerType::User => "user",
            ProjectApiKeyOwnerType::ServiceAccount => "service_account",
            ProjectApiKeyOwnerType::Unknown(text) => text.as_str(),
        }
    }

    /// The value a text names; a text no variant uses is kept as `Unknown`.
    pub fn from_text(value: &str) -> (r: ProjectApiKeyOwnerType)
        ensures
            r.literal() == value@,
            r.is_unknown() == (ProjectApiKeyOwnerType::known(value@) is None),
            ProjectApiKeyOwnerType::known(value@) matches Some(k) ==> r == k,
    {
        if str_eq(value, "user") {
            ProjectApiKeyOwnerType::User
        } else if str_eq(value, "service_account") {
            ProjectApiKeyOwnerType::ServiceAccount
        } else {
            ProjectApiKeyOwnerType::Unknown(value.to_string())
        }
    }
}

impl Default for ProjectApiKeyOwnerType {
    fn default() -> (r: ProjectApiKeyOwnerType)
        ensures
            r.literal() == Seq::<char>::empty(),
            r is Unknown,
    {
        ProjectApiKeyOwnerType::Unknown(String::new())
    }
}

/// Organization data retention object type.
#[derive(Clone, Debug, PartialEq, Eq)]
pub enum AdminOrganizationDataRetentionObject {
    OrganizationDataRetention,
    /// A value this library does not know, kept as received.
    Unknown(String),
}

impl Literal for AdminOrganizationDataRetentionObject {
    open spec fn literal(&self) -> Seq<char> {
        match self {
            AdminOrganizationDataRetentionObject::OrganizationDataRetention => "organization.data_retention"@,
            AdminOrganizationDataRetentionObject::Unknown(text) => text@,
        }
    }

    fn to_text(&self) -> (r: String) {
        self.as_str().to_string()
    }
}

impl OpenLiteral for AdminOrganizationDataRetentionObject {
    open spec fn known(text: Seq<char>) -> Option<AdminOrganizationDataRetentionObject> {
        if text == "organization.data_retention"@ {
            Some(AdminOrganizationDataRetentionObject::OrganizationDataRetention)
        } else {
            None
        }
    }

    open spec fn is_unknown(&self) -> bool {
        self is Unknown
    }

    proof fn lemma_known_literal(value: Self) {
        reveal_strlit("organization.data_retention");
        assert("organization.data_retention"@.len() == 27);
    }

    proof fn lemma_known_text(text: Seq<char>) {
    }
}

impl AdminOrganizationDataRetentionObject {
    /// The text the API uses for this value.
    pub fn as_str(&self) -> (r: &str)
        ensures
            r@ == self.literal(),
    {
        match self {
            AdminOrganizationDataRetentionObject::OrganizationDataRetention => "organization.data_retention",
            AdminOrganizationDataRetentionObject::Unknown(text) => text.as_str(),
        }
    }

    /// The value a text names; a text no variant uses is kept as `Unknown`.
    pub fn from_text(value: &str) -> (r: AdminOrganizationDataRetentionObject)
        ensures
            r.literal() == value@,
            r.is_unknown() == (AdminOrganizationDataRetentionObject::known(value@) is None),
            AdminOrganizationDataRetentionObject::known(value@) matches Some(k) ==> r == k,
    {
        if str_eq(value, "organization.data_retention") {
            AdminOrganizationDataRetentionObject::OrganizationDataRetention
        } else {
            AdminOrganizationDataRetentionObject::Unknown(value.to_string())
        }
    }
}

impl Default for AdminOrganizationDataRetentionObject {
    fn default() -> (r: AdminOrganizationDataRetentionObject)
        ensures
            r.literal() == Seq::<char>::empty(),
            r is Unknown,
    {
        AdminOrganizationDataRetentionObject::Unknown(String::new())
    }
}

/// Project data retention object type.
#[derive(Clone, Debug, PartialEq, Eq)]
pub enum AdminProjectDataRetentionObject {
    ProjectDataRetention,
    /// A value this library does not know, kept as received.
    Unknown(String),
}

impl Literal for AdminProjectDataRetentionObject {
    open spec fn literal(&self) -> Seq<char> {
        match self {
            AdminProjectDataRetentionObject::ProjectDataRetention => "project.data_retention"@,
            AdminProjectDataRetentionObject::Unknown(text) => text@,
        }
    }

    fn to_text(&self) -> (r: String) {
        self.as_str().to_string()
    }
}

impl OpenLiteral for AdminProjectDataRetentionObject {
    open spec fn known(text: Seq<char>) -> Option<AdminProjectDataRetentionObject> {
        if text == "project.data_retention"@ {
            Some(AdminProjectDataRetentionObject::ProjectDataRetention)
        } else {
            None
        }
    }

    open spec fn is_unknown(&self) -> bool {
        self is Unknown
    }

    proof fn lemma_known_literal(value: Self) {
        reveal_strlit("project.data_retention");
        assert("project.data_retention"@.len() == 22);
    }

    proof fn lemma_known_text(text: Seq<char>) {
    }
}

impl AdminProjectDataRetentionObject {
    /// The text the API uses for this value.
    pub fn as_str(&self) -> (r: &str)
        ensures
            r@ == self.literal(),
    {
        match self {
            AdminProjectDataRetentionObject::ProjectDataRetention => "project.data_retention",
            AdminProjectDataRetentionObject::Unknown(text) => text.as_str(),
        }
    }

    /// The value a text names; a text no variant uses is kept as `Unknown`.
    pub fn from_text(value: &str) -> (r: AdminProjectDataRetentionObject)
        ensures
            r.literal() == value@,
            r.is_unknown() == (AdminProjectDataRetentionObject::known(value@) is None),
            AdminProjectDataRetentionObject::known(value@) matches Some(k) ==> r == k,
    {
        if str_eq(value, "project.data_retention") {
            AdminProjectDataRetentionObject::ProjectDataRetention
        } else {
            AdminProjectDataRetentionObject::Unknown(value.to_string())
        }
    }
}

impl Default for AdminProjectDataRetentionObject {
    fn default() -> (r: AdminProjectDataRetentionObject)
        ensures
            r.literal() == Seq::<char>::empty(),
            r is Unknown,
    {
        AdminProjectDataRetentionObject::Unknown(String::new())
    }
}

/// Organization invite role.
#[derive(Clone, Debug, PartialEq, Eq)]
pub enum AdminInviteRole {
    Reader,
    Owner,
    /// A value this library does not know, kept as received.
    Unknown(String),
}

impl Literal for AdminInviteRole {
    open spec fn literal(&self) -> Seq<char> {
        match self {
            AdminInviteRole::Reader => "reader"@,
            AdminInviteRole::Owner => "owner"@,
            AdminInviteRole::Unknown(text) => text@,
        }
    }

    fn to_text(&self) -> (r: String) {
        self.as_str().to_string()
    }
}

impl OpenLiteral for AdminInviteRole {
    open spec fn known(text: Seq<char>) -> Option<AdminInviteRole> {
        if text == "reader"@ {
            Some(AdminInviteRole::Reader)
        } else if text == "owner"@ {
            Some(AdminInviteRole::Owner)
        } else {
            None
        }
    }

    open spec fn is_unknown(&self) -> bool {
        self is Unknown
    }

    proof fn lemma_known_literal(value: Self) {
        reveal_strlit("reader");
        reveal_strlit("owner");
        assert("reader"@.len() == 6);
        assert("owner"@.len() == 5);
    }

    proof fn lemma_known_text(text: Seq<char>) {
    }
}

impl AdminInviteRole {
    /// The text the API uses for this value.
    pub fn as_str(&self) -> (r: &str)
        ensures
            r@ == self.literal(),
    {
        match self {
            AdminInviteRole::Reader => "reader",
            AdminInviteRole::Owner => "owner",
            AdminInviteRole::Unknown(text) => text.as_str(),
        }
    }

    /// The value a text names; a text no variant uses is kept as `Unknown`.
    pub fn from_text(value: &str) -> (r: AdminInviteRole)
        ensures
            r.literal() == value@,
            r.is_unknown() == (AdminInviteRole::known(value@) is None),
            AdminInviteRole::known(value@) matches Some(k) ==> r == k,
    {
        if str_eq(value, "reader") {
            AdminInviteRole::Reader
        } else if str_eq(value, "owner") {
            AdminInviteRole::Owner
        } else {
            AdminInviteRole::Unknown(value.to_string())
        }
    }
}

impl Default for AdminInviteRole {
    fn default() -> (r: AdminInviteRole)
        ensures
            r.literal() == Seq::<char>::empty(),
            r is Unknown,
    {
        AdminInviteRole::Unknown(String::new())
    }
}

/// Organization invite object type.
#[derive(Clone, Debug, PartialEq, Eq)]
pub enum AdminInviteObject {
    OrganizationInvite,
    /// A value this library does not know, kept as received.
    Unknown(String),
}

impl Literal for AdminInviteObject {
    open spec fn literal(&self) -> Seq<char> {
        match self {
            AdminInviteObject::OrganizationInvite => "organization.invite"@,
            AdminInviteObject::Unknown(text) => text@,
        }
    }

    fn to_text(&self) -> (r: String) {
        self.as_str().to_string()
    }
}

impl OpenLiteral for AdminInviteObject {
    open spec fn known(text: Seq<char>) -> Option<AdminInviteObject> {
        if text == "organization.invite"@ {
            Some(AdminInviteObject::OrganizationInvite)
        } else {
            None
        }
    }

    open spec fn is_unknown(&self) -> bool {
        self is Unknown
    }

    proof fn lemma_known_literal(value: Self) {
        reveal_strlit("organization.invite");
        assert("organization.invite"@.len() == 19);
    }

    proof fn lemma_known_text(text: Seq<char>) {
    }
}

impl AdminInviteObject {
    /// The text the API uses for this value.
    pub fn as_str(&self) -> (r: &str)
        ensures
            r@ == self.literal(),
    {
        match self {
            AdminInviteObject::OrganizationInvite => "organization.invite",
            AdminInviteObject::Unknown(text) => text.as_str(),
        }
    }

    /// The value a text names; a text no variant uses is kept as `Unknown`.
    pub fn from_text(value: &str) -> (r: AdminInviteObject)
        ensures
            r.literal() == value@,
            r.is_unknown() == (AdminInviteObject::known(value@) is None),
            AdminInviteObject::known(value@) matches Some(k) ==> r == k,
    {
        if str_eq(value, "organization.invite") {
            AdminInviteObject::OrganizationInvite
        } else {
            AdminInviteObject::Unknown(value.to_string())
        }
    }
}

impl Default for AdminInviteObject {
    fn default() -> (r: AdminInviteObject)
        ensures
            r.literal() == Seq::<char>::empty(),
            r is Unknown,
    {
        AdminInviteObject::Unknown(String::new())
    }
}

/// Organization invite deletion object type.
#[derive(Clone, Debug, PartialEq, Eq)]
pub enum AdminInviteDeletedObject {
    OrganizationInviteDeleted,
    /// A value this library does not know, kept as received.
    Unknown(String),
}

impl Literal for AdminInviteDeletedObject {
    open spec fn literal(&self) -> Seq<char> {
        match self {
            AdminInviteDeletedObject::OrganizationInviteDeleted => "organization.invite.deleted"@,
            AdminInviteDeletedObject::Unknown(text) => text@,
        }
    }

    fn to_text(&self) -> (r: String) {
        self.as_str().to_string()
    }
}

impl OpenLiteral for AdminInviteDeletedObject {
    open spec fn known(text: Seq<char>) -> Option<AdminInviteDeletedObject> {
        if text == "organization.invite.deleted"@ {
            Some(AdminInviteDeletedObject::OrganizationInviteDeleted)
        } else {
            None
        }
    }

    open spec fn is_unknown(&self) -> bool {
        self is Unknown
    }

    proof fn lemma_known_literal(value: Self) {
        reveal_strlit("organization.invite.deleted");
        assert("organization.invite.deleted"@.len() == 27);
    }

    proof fn lemma_known_text(text: Seq<char>) {
    }
}

impl AdminInviteDeletedObject {
    /// The text the API uses for this value.
    pub fn as_str(&self) -> (r: &str)
        ensures
            r@ == self.literal(),
    {
        match self {
            AdminInviteDeletedObject::OrganizationInviteDeleted => "organization.invite.deleted",
            AdminInviteDeletedObject::Unknown(text) => text.as_str(),
        }
    }

    /// The value a text names; a text no variant uses is kept as `Unknown`.
    pub fn from_text(value: &str) -> (r: AdminInviteDeletedObject)
        ensures
            r.literal() == value@,
            r.is_unknown() == (AdminInviteDeletedObject::known(value@) is None),
            AdminInviteDeletedObject::known(value@) matches Some(k) ==> r == k,
    {
        if str_eq(value, "organization.invite.deleted") {
            AdminInviteDeletedObject::OrganizationInviteDeleted
        } else {
            AdminInviteDeletedObject::Unknown(value.to_string())
        }
    }
}

impl Default for AdminInviteDeletedObject {
    fn default() -> (r: AdminInviteDeletedObject)
        ensures
            r.literal() == Seq::<char>::empty(),
            r is Unknown,
    {
        AdminInviteDeletedObject::Unknown(String::new())
    }
}

/// Organization invite status.
#[derive(Clone, Debug, PartialEq, Eq)]
pub enum AdminInviteStatus {
    Accepted,
    Expired,
    Pending,
    /// A value this library does not know, kept as received.
    Unknown(String),
}

impl Literal for AdminInviteStatus {
    open spec fn literal(&self) -> Seq<char> {
        match self {
            AdminInviteStatus::Accepted => "accepted"@,
            AdminInviteStatus::Expired => "expired"@,
            AdminInviteStatus::Pending => "pending"@,
            AdminInviteStatus::Unknown(text) => text@,
        }
    }

    fn to_text(&self) -> (r: String) {
        self.as_str().to_string()
    }
}

impl OpenLiteral for AdminInviteStatus {
    open spec fn known(text: Seq<char>) -> Option<AdminInviteStatus> {
        if text == "accepted"@ {
            Some(AdminInviteStatus::Accepted)
        } else if text == "expired"@ {
            Some(AdminInviteStatus::Expired)
        } else if text == "pending"@ {
            Some(AdminInviteStatus::Pending)
        } else {
            None
        }
    }

    open spec fn is_unknown(&self) -> bool {
        self is Unknown
    }

    proof fn lemma_known_literal(value: Self) {
        reveal_strlit("accepted");
        reveal_strlit("expired");
        reveal_strlit("pending");
        assert("accepted"@.len() == 8);
        assert("expired"@.len() == 7);
        assert("pending"@.len() == 7);
        assert("expired"@[0] == 'e');
        assert("pending"@[0] == 'p');
    }

    proof fn lemma_known_text(text: Seq<char>) {
    }
}

impl AdminInviteStatus {
    /// The text the API uses for this value.
    pub fn as_str(&self) -> (r: &str)
        ensures
            r@ == self.literal(),
    {
        match self {
            AdminInviteStatus::Accepted => "accepted",
            AdminInviteStatus::Expired => "expired",
            AdminInviteStatus::Pending => "pending",
            AdminInviteStatus::Unknown(text) => text.as_str(),
        }
    }

    /// The value a text names; a text no variant uses is kept as `Unknown`.
    pub fn from_text(value: &str) -> (r: AdminInviteStatus)
        ensures
            r.literal() == value@,
            r.is_unknown() == (AdminInviteStatus::known(value@) is None),
            AdminInviteStatus::known(value@) matches Some(k) ==> r == k,
    {
        if str_eq(value, "accepted") {
            AdminInviteStatus::Accepted
        } else if str_eq(value, "expired") {
            AdminInviteStatus::Expired
        } else if str_eq(value, "pending") {
            AdminInviteStatus::Pending
        } else {
            AdminInviteStatus::Unknown(value.to_string())
        }
    }
}

impl Default for AdminInviteStatus {
    fn default() -> (r: AdminInviteStatus)
        ensures
            r.literal() == Seq::<char>::empty(),
            r is Unknown,
    {
        AdminInviteStatus::Unknown(String::new())
    }
}

/// Organization user object type.
#[derive(Clone, Debug, PartialEq, Eq)]
pub enum AdminOrganizationUserObject {
    OrganizationUser,
    /// A value this library does not know, kept as received.
    Unknown(String),
}

impl Literal for AdminOrganizationUserObject {
    open spec fn literal(&self) -> Seq<char> {
        match self {
            AdminOrganizationUserObject::OrganizationUser => "organization.user"@,
            AdminOrganizationUserObject::Unknown(text) => text@,
        }
    }

    fn to_text(&self) -> (r: String) {
        self.as_str().to_string()
    }
}

impl OpenLiteral for AdminOrganizationUserObject {
    open spec fn known(text: Seq<char>) -> Option<AdminOrganizationUserObject> {
        if text == "organization.user"@ {
            Some(AdminOrganizationUserObject::OrganizationUser)
        } else {
            None
        }
    }

    open spec fn is_unknown(&self) -> bool {
        self is Unknown
    }

    proof fn lemma_known_literal(value: Self) {
        reveal_strlit("organization.user");
        assert("organization.user"@.len() == 17);
    }

    proof fn lemma_known_text(text: Seq<char>) {
    }
}

impl AdminOrganizationUserObject {
    /// The text the API uses for this value.
    pub fn as_str(&self) -> (r: &str)
        ensures
            r@ == self.literal(),
    {
        match self {
            AdminOrganizationUserObject::OrganizationUser => "organization.user",
            AdminOrganizationUserObject::Unknown(text) => text.as_str(),
        }
    }

    /// The value a text names; a text no variant uses is kept as `Unknown`.
    pub fn from_text(value: &str) -> (r: AdminOrganizationUserObject)
        ensures
            r.literal() == value@,
            r.is_unknown() == (AdminOrganizationUserObject::known(value@) is None),
            AdminOrganizationUserObject::known(value@) matches Some(k) ==> r == k,
    {
        if str_eq(value, "organization.user") {
            AdminOrganizationUserObject::OrganizationUser
        } else {
            AdminOrganizationUserObject::Unknown(value.to_string())
        }
    }
}

impl Default for AdminOrganizationUserObject {
    fn default() -> (r: AdminOrganizationUserObject)
        ensures
            r.literal() == Seq::<char>::empty(),
            r is Unknown,
    {
        AdminOrganizationUserObject::Unknown(String::new())
    }
}

/// Nested user object type.
#[derive(Clone, Debug, PartialEq, Eq)]
pub enum AdminUserObject {
    User,
    /// A value this library does not know, kept as received.
    Unknown(String),
}

impl Literal for AdminUserObject {
    open spec fn literal(&self) -> Seq<char> {
        match self {
            AdminUserObject::User => "user"@,
            AdminUserObject::Unknown(text) => text@,
        }
    }

    fn to_text(&self) -> (r: String) {
        self.as_str().to_string()
    }
}

impl OpenLiteral for AdminUserObject {
    open spec fn known(text: Seq<char>) -> Option<AdminUserObject> {
        if text == "user"@ {
            Some(AdminUserObject::User)
        } else {
            None
        }
    }

    open spec fn is_unknown(&self) -> bool {
        self is Unknown
    }

    proof fn lemma_known_literal(value: Self) {
        reveal_strlit("user");
        assert("user"@.len() == 4);
    }

    proof fn lemma_known_text(text: Seq<char>) {
    }
}

impl AdminUserObject {
    /// The text the API uses for this value.
    pub fn as_str(&self) -> (r: &str)
        ensures
            r@ == self.literal(),
    {
        match self {
            AdminUserObject::User => "user",
            AdminUserObject::Unknown(text) => text.as_str(),
        }
    }

    /// The value a text names; a text no variant uses is kept as `Unknown`.
    pub fn from_text(value: &str) -> (r: AdminUserObject)
        ensures
            r.literal() == value@,
            r.is_unknown() == (AdminUserObject::known(value@) is None),
            AdminUserObject::known(value@) matches Some(k) ==> r == k,
    {
        if str_eq(value, "user") {
            AdminUserObject::User
        } else {
            AdminUserObject::Unknown(value.to_string())
        }
    }
}

impl Default for AdminUserObject {
    fn default() -> (r: AdminUserObject)
        ensures
            r.literal() == Seq::<char>::empty(),
            r is Unknown,
    {
        AdminUserObject::Unknown(String::new())
    }
}

/// Organization user deletion object type.
#[derive(Clone, Debug, PartialEq, Eq)]
pub enum AdminOrganizationUserDeletedObject {
    OrganizationUserDeleted,
    /// A value this library does not know, kept as received.
    Unknown(String),
}

impl Literal for AdminOrganizationUserDeletedObject {
    open spec fn literal(&self) -> Seq<char> {
        match self {
            AdminOrganizationUserDeletedObject::OrganizationUserDeleted => "organization.user.deleted"@,
            AdminOrganizationUserDeletedObject::Unknown(text) => text@,
        }
    }

    fn to_text(&self) -> (r: String) {
        self.as_str().to_string()
    }
}

impl OpenLiteral for AdminOrganizationUserDeletedObject {
    open spec fn known(text: Seq<char>) -> Option<AdminOrganizationUserDeletedObject> {
        if text == "organization.user.deleted"@ {
            Some(AdminOrganizationUserDeletedObject::OrganizationUserDeleted)
        } else {
            None
        }
    }

    open spec fn is_unknown(&self) -> bool {
        self is Unknown
    }

    proof fn lemma_known_literal(value: Self) {
        reveal_strlit("organization.user.deleted");
        assert("organization.user.deleted"@.len() == 25);
    }

    proof fn lemma_known_text(text: Seq<char>) {
    }
}

impl AdminOrganizationUserDeletedObject {
    /// The text the API uses for this value.
    pub fn as_str(&self) -> (r: &str)
        ensures
            r@ == self.literal(),
    {
        match self {
            AdminOrganizationUserDeletedObject::OrganizationUserDeleted => "organization.user.deleted",
            AdminOrganizationUserDeletedObject::Unknown(text) => text.as_str(),
        }
    }

    /// The value a text names; a text no variant uses is kept as `Unknown`.
    pub fn from_text(value: &str) -> (r: AdminOrganizationUserDeletedObject)
        ensures
            r.literal() == value@,
            r.is_unknown() == (AdminOrganizationUserDeletedObject::known(value@) is None),
            AdminOrganizationUserDeletedObject::known(value@) matches Some(k) ==> r == k,
    {
        if str_eq(value, "organization.user.deleted") {
            AdminOrganizationUserDeletedObject::OrganizationUserDeleted
        } else {
            AdminOrganizationUserDeletedObject::Unknown(value.to_string())
        }
    }
}

impl Default for AdminOrganizationUserDeletedObject {
    fn default() -> (r: AdminOrganizationUserDeletedObject)
        ensures
            r.literal() == Seq::<char>::empty(),
            r is Unknown,
    {
        AdminOrganizationUserDeletedObject::Unknown(String::new())
    }
}

/// Project membership role used by invite project grants and service accounts.
#[derive(Clone, Debug, PartialEq, Eq)]
pub enum AdminProjectMembershipRole {
    Member,
    Owner,
    /// A value this library does not know, kept as received.
    Unknown(String),
}

impl Literal for AdminProjectMembershipRole {
    open spec fn literal(&self) -> Seq<char> {
        match self {
            AdminProjectMembershipRole::Member => "member"@,
            AdminProjectMembershipRole::Owner => "owner"@,
            AdminProjectMembershipRole::Unknown(text) => text@,
        }
    }

    fn to_text(&self) -> (r: String) {
        self.as_str().to_string()
    }
}

impl OpenLiteral for AdminProjectMembershipRole {
    open spec fn known(text: Seq<char>) -> Option<AdminProjectMembershipRole> {
        if text == "member"@ {
            Some(AdminProjectMembershipRole::Member)
        } else if text == "owner"@ {
            Some(AdminProjectMembershipRole::Owner)
        } else {
            None
        }
    }

    open spec fn is_unknown(&self) -> bool {
        self is Unknown
    }

    proof fn lemma_known_literal(value: Self) {
        reveal_strlit("member");
        reveal_strlit("owner");
        assert("member"@.len() == 6);
        assert("owner"@.len() == 5);
    }

    proof fn lemma_known_text(text: Seq<char>) {
    }
}

impl AdminProjectMembershipRole {
    /// The text the API uses for this value.
    pub fn as_str(&self) -> (r: &str)
        ensures
            r@ == self.literal(),
    {
        match self {
            AdminProjectMembershipRole::Member => "member",
            AdminProjectMembershipRole::Owner => "owner",
            AdminProjectMembershipRole::Unknown(text) => text.as_str(),
        }
    }

    /// The value a text names; a text no variant uses is kept as `Unknown`.
    pub fn from_text(value: &str) -> (r: AdminProjectMembershipRole)
        ensures
            r.literal() == value@,
            r.is_unknown() == (AdminProjectMembershipRole::known(value@) is None),
            AdminProjectMembershipRole::known(value@) matches Some(k) ==> r == k,
    {
        if str_eq(value, "member") {
            AdminProjectMembershipRole::Member
        } else if str_eq(value, "owner") {
            AdminProjectMembershipRole::Owner
        } else {
            AdminProjectMembershipRole::Unknown(value.to_string())
        }
    }
}

impl Default for AdminProjectMembershipRole {
    fn default() -> (r: AdminProjectMembershipRole)
        ensures
            r.literal() == Seq::<char>::empty(),
            r is Unknown,
    {
        AdminProjectMembershipRole::Unknown(String::new())
    }
}

/// Organization-level data retention mode.
#[derive(Clone, Debug, PartialEq, Eq)]
pub enum AdminOrganizationDataRetentionType {
    ZeroDataRetention,
    ModifiedAbuseMonitoring,
    EnhancedZeroDataRetention,
    EnhancedModifiedAbuseMonitoring,
    /// A value this library does not know, kept as received.
    Unknown(String),
}

impl Literal for AdminOrganizationDataRetentionType {
    open spec fn literal(&self) -> Seq<char> {
        match self {
            AdminOrganizationDataRetentionType::ZeroDataRetention => "zero_data_retention"@,
            AdminOrganizationDataRetentionType::ModifiedAbuseMonitoring => "modified_abuse_monitoring"@,
            AdminOrganizationDataRetentionType::EnhancedZeroDataRetention => "enhanced_zero_data_retention"@,
            AdminOrganizationDataRetentionType::EnhancedModifiedAbuseMonitoring => "enhanced_modified_abuse_monitoring"@,
            AdminOrganizationDataRetentionType::Unknown(text) => text@,
        }
    }

    fn to_text(&self) -> (r: String) {
        self.as_str().to_string()
    }
}

impl OpenLiteral for AdminOrganizationDataRetentionType {
    open spec fn known(text: Seq<char>) -> Option<AdminOrganizationDataRetentionType> {
        if text == "zero_data_retention"@ {
            Some(AdminOrganizationDataRetentionType::ZeroDataRetention)
        } else if text == "modified_abuse_monitoring"@ {
            Some(AdminOrganizationDataRetentionType::ModifiedAbuseMonitoring)
        } else if text == "enhanced_zero_data_retention"@ {
            Some(AdminOrganizationDataRetentionType::EnhancedZeroDataRetention)
        } else if text == "enhanced_modified_abuse_monitoring"@ {
            Some(AdminOrganizationDataRetentionType::EnhancedModifiedAbuseMonitoring)
        } else {
            None
        }
    }

    open spec fn is_unknown(&self) -> bool {
        self is Unknown
    }

    proof fn lemma_known_literal(value: Self) {
        reveal_strlit("zero_data_retention");
        reveal_strlit("modified_abuse_monitoring");
        reveal_strlit("enhanced_zero_data_retention");
        reveal_strlit("enhanced_modified_abuse_monitoring");
        assert("zero_data_retention"@.len() == 19);
        assert("modified_abuse_monitoring"@.len() == 25);
        assert("enhanced_zero_data_retention"@.len() == 28);
        assert("enhanced_modified_abuse_monitoring"@.len() == 34);
    }

    proof fn lemma_known_text(text: Seq<char>) {
    }
}

impl AdminOrganizationDataRetentionType {
    /// The text the API uses for this value.
    pub fn as_str(&self) -> (r: &str)
        ensures
            r@ == self.literal(),
    {
        match self {
            AdminOrganizationDataRetentionType::ZeroDataRetention => "zero_data_retention",
            AdminOrganizationDataRetentionType::ModifiedAbuseMonitoring => "modified_abuse_monitoring",
            AdminOrganizationDataRetentionType::EnhancedZeroDataRetention => "enhanced_zero_data_retention",
            AdminOrganizationDataRetentionType::EnhancedModifiedAbuseMonitoring => "enhanced_modified_abuse_monitoring",
            AdminOrganizationDataRetentionType::Unknown(text) => text.as_str(),
        }
    }

    /// The value a text names; a text no variant uses is kept as `Unknown`.
    pub fn from_text(value: &str) -> (r: AdminOrganizationDataRetentionType)
        ensures
            r.literal() == value@,
            r.is_unknown() == (AdminOrganizationDataRetentionType::known(value@) is None),
            AdminOrganizationDataRetentionType::known(value@) matches Some(k) ==> r == k,
    {
        if str_eq(value, "zero_data_retention") {
            AdminOrganizationDataRetentionType::ZeroDataRetention
        } else if str_eq(value, "modified_abuse_monitoring") {
            AdminOrganizationDataRetentionType::ModifiedAbuseMonitoring
        } else if str_eq(value, "enhanced_zero_data_retention") {
            AdminOrganizationDataRetentionType::EnhancedZeroDataRetention
        } else if str_eq(value, "enhanced_modified_abuse_monitoring") {
            AdminOrganizationDataRetentionType::EnhancedModifiedAbuseMonitoring
        } else {
            AdminOrganizationDataRetentionType::Unknown(value.to_string())
        }
    }
}

impl Default for AdminOrganizationDataRetentionType {
    fn default() -> (r: AdminOrganizationDataRetentionType)
        ensures
            r.literal() == Seq::<char>::empty(),
            r is Unknown,
    {
        AdminOrganizationDataRetentionType::Unknown(String::new())
    }
}

/// Project-level data retention mode.
#[derive(Clone, Debug, PartialEq, Eq)]
pub enum AdminProjectDataRetentionType {
    OrganizationDefault,
    NoRetention,
    ZeroDataRetention,
    ModifiedAbuseMonitoring,
    EnhancedZeroDataRetention,
    EnhancedModifiedAbuseMonitoring,
    /// A value this library does not know, kept as received.
    Unknown(String),
}

impl Literal for AdminProjectDataRetentionType {
    open spec fn literal(&self) -> Seq<char> {
        match self {
            AdminProjectDataRetentionType::OrganizationDefault => "organization_default"@,
            AdminProjectDataRetentionType::NoRetention => "none"@,
            AdminProjectDataRetentionType::ZeroDataRetention => "zero_data_retention"@,
            AdminProjectDataRetentionType::ModifiedAbuseMonitoring => "modified_abuse_monitoring"@,
            AdminProjectDataRetentionType::EnhancedZeroDataRetention => "enhanced_zero_data_retention"@,
            AdminProjectDataRetentionType::EnhancedModifiedAbuseMonitoring => "enhanced_modified_abuse_monitoring"@,
            AdminProjectDataRetentionType::Unknown(text) => text@,
        }
    }

    fn to_text(&self) -> (r: String) {
        self.as_str().to_string()
    }
}

impl OpenLiteral for AdminProjectDataRetentionType {
    open spec fn known(text: Seq<char>) -> Option<AdminProjectDataRetentionType> {
        if text == "organization_default"@ {
            Some(AdminProjectDataRetentionType::OrganizationDefault)
        } else if text == "none"@ {
            Some(AdminProjectDataRetentionType::NoRetention)
        } else if text == "zero_data_retention"@ {
            Some(AdminProjectDataRetentionType::ZeroDataRetention)
        } else if text == "modified_abuse_monitoring"@ {
            Some(AdminProjectDataRetentionType::ModifiedAbuseMonitoring)
        } else if text == "enhanced_zero_data_retention"@ {
            Some(AdminProjectDataRetentionType::EnhancedZeroDataRetention)
        } else if text == "enhanced_modified_abuse_monitoring"@ {
            Some(AdminProjectDataRetentionType::EnhancedModifiedAbuseMonitoring)
        } else {
            None
        }
    }

    open spec fn is_unknown(&self) -> bool {
        self is Unknown
    }

    proof fn lemma_known_literal(value: Self) {
        reveal_strlit("organization_default");
        reveal_strlit("none");
        reveal_strlit("zero_data_retention");
        reveal_strlit("modified_abuse_monitoring");
        reveal_strlit("enhanced_zero_data_retention");
        reveal_strlit("enhanced_modified_abuse_monitoring");
        assert("organization_default"@.len() == 20);
        assert("none"@.len() == 4);
        assert("zero_data_retention"@.len() == 19);
        assert("modified_abuse_monitoring"@.len() == 25);
        assert("enhanced_zero_data_retention"@.len() == 28);
        assert("enhanced_modified_abuse_monitoring"@.len() == 34);
    }

    proof fn lemma_known_text(text: Seq<char>) {
    }
}

impl AdminProjectDataRetentionType {
    /// The text the API uses for this value.
    pub fn as_str(&self) -> (r: &str)
        ensures
            r@ == self.literal(),
    {
        match self {
            AdminProjectDataRetentionType::OrganizationDefault => "organization_default",
            AdminProjectDataRetentionType::NoRetention => "none",
            AdminProjectDataRetentionType::ZeroDataRetention => "zero_data_retention",
            AdminProjectDataRetentionType::ModifiedAbuseMonitoring => "modified_abuse_monitoring",
            AdminProjectDataRetentionType::EnhancedZeroDataRetention => "enhanced_zero_data_retention",
            AdminProjectDataRetentionType::EnhancedModifiedAbuseMonitoring => "enhanced_modified_abuse_monitoring",
            AdminProjectDataRetentionType::Unknown(text) => text.as_str(),
        }
    }

    /// The value a text names; a text no variant uses is kept as `Unknown`.
    pub fn from_text(value: &str) -> (r: AdminProjectDataRetentionType)
        ensures
            r.literal() == value@,
            r.is_unknown() == (AdminProjectDataRetentionType::known(value@) is None),
            AdminProjectDataRetentionType::known(value@) matches Some(k) ==> r == k,
    {
        if str_eq(value, "organization_default") {
            AdminProjectDataRetentionType::OrganizationDefault
        } else if str_eq(value, "none") {
            AdminProjectDataRetentionType::NoRetention
        } else if str_eq(value, "zero_data_retention") {
            AdminProjectDataRetentionType::ZeroDataRetention
        } else if str_eq(value, "modified_abuse_monitoring") {
            AdminProjectDataRetentionType::ModifiedAbuseMonitoring
        } else if str_eq(value, "enhanced_zero_data_retention") {
            AdminProjectDataRetentionType::EnhancedZeroDataRetention
        } else if str_eq(value, "enhanced_modified_abuse_monitoring") {
            AdminProjectDataRetentionType::EnhancedModifiedAbuseMonitoring
        } else {
            AdminProjectDataRetentionType::Unknown(value.to_string())
        }
    }
}

impl Default for AdminProjectDataRetentionType {
    fn default() -> (r: AdminProjectDataRetentionType)
        ensures
            r.literal() == Seq::<char>::empty(),
            r is Unknown,
    {
        AdminProjectDataRetentionType::Unknown(String::new())
    }
}

/// Currency supported by spend-alert thresholds.
#[derive(Clone, Debug, PartialEq, Eq)]
pub enum AdminSpendAlertCurrency {
    Usd,
    /// A value this library does not know, kept as received.
    Unknown(String),
}

impl Literal for AdminSpendAlertCurrency {
    open spec fn literal(&self) -> Seq<char> {
        match self {
            AdminSpendAlertCurrency::Usd => "USD"@,
            AdminSpendAlertCurrency::Unknown(text) => text@,
        }
    }

    fn to_text(&self) -> (r: String) {
        self.as_str().to_string()
    }
}

impl OpenLiteral for AdminSpendAlertCurrency {
    open spec fn known(text: Seq<char>) -> Option<AdminSpendAlertCurrency> {
        if text == "USD"@ {
            Some(AdminSpendAlertCurrency::Usd)
        } else {
            None
        }
    }

    open spec fn is_unknown(&self) -> bool {
        self is Unknown
    }

    proof fn lemma_known_literal(value: Self) {
        reveal_strlit("USD");
        assert("USD"@.len() == 3);
    }

    proof fn lemma_known_text(text: Seq<char>) {
    }
}

impl AdminSpendAlertCurrency {
    /// The text the API uses for this value.
    pub fn as_str(&self) -> (r: &str)
        ensures
            r@ == self.literal(),
    {
        match self {
            AdminSpendAlertCurrency::Usd => "USD",
            AdminSpendAlertCurrency::Unknown(text) => text.as_str(),
        }
    }

    /// The value a text names; a text no variant uses is kept as `Unknown`.
    pub fn from_text(value: &str) -> (r: AdminSpendAlertCurrency)
        ensures
            r.literal() == value@,
            r.is_unknown() == (AdminSpendAlertCurrency::known(value@) is None),
            AdminSpendAlertCurrency::known(value@) matches Some(k) ==> r == k,
    {
        if str_eq(value, "USD") {
            AdminSpendAlertCurrency::Usd
        } else {
            AdminSpendAlertCurrency::Unknown(value.to_string())
        }
    }
}

impl Default for AdminSpendAlertCurrency {
    fn default() -> (r: AdminSpendAlertCurrency)
        ensures
            r.literal() == Seq::<char>::empty(),
            r is Unknown,
    {
        AdminSpendAlertCurrency::Unknown(String::new())
    }
}

/// Spend-alert evaluation interval.
#[derive(Clone, Debug, PartialEq, Eq)]
pub enum AdminSpendAlertInterval {
    Month,
    /// A value this library does not know, kept as received.
    Unknown(String),
}

impl Literal for AdminSpendAlertInterval {
    open spec fn literal(&self) -> Seq<char> {
        match self {
            AdminSpendAlertInterval::Month => "month"@,
            AdminSpendAlertInterval::Unknown(text) => text@,
        }
    }

    fn to_text(&self) -> (r: String) {
        self.as_str().to_string()
    }
}

impl OpenLiteral for AdminSpendAlertInterval {
    open spec fn known(text: Seq<char>) -> Option<AdminSpendAlertInterval> {
        if text == "month"@ {
            Some(AdminSpendAlertInterval::Month)
        } else {
            None
        }
    }

    open spec fn is_unknown(&self) -> bool {
        self is Unknown
    }

    proof fn lemma_known_literal(value: Self) {
        reveal_strlit("month");
        assert("month"@.len() == 5);
    }

    proof fn lemma_known_text(text: Seq<char>) {
    }
}

impl AdminSpendAlertInterval {
    /// The text the API uses for this value.
    pub fn as_str(&self) -> (r: &str)
        ensures
            r@ == self.literal(),
    {
        match self {
            AdminSpendAlertInterval::Month => "month",
            AdminSpendAlertInterval::Unknown(text) => text.as_str(),
        }
    }

    /// The value a text names; a text no variant uses is kept as `Unknown`.
    pub fn from_text(value: &str) -> (r: AdminSpendAlertInterval)
        ensures
            r.literal() == value@,
            r.is_unknown() == (AdminSpendAlertInterval::known(value@) is None),
            AdminSpendAlertInterval::known(value@) matches Some(k) ==> r == k,
    {
        if str_eq(value, "month") {
            AdminSpendAlertInterval::Month
        } else {
            AdminSpendAlertInterval::Unknown(value.to_string())
        }
    }
}

impl Default for AdminSpendAlertInterval {
    fn default() -> (r: AdminSpendAlertInterval)
        ensures
            r.literal() == Seq::<char>::empty(),
            r is Unknown,
    {
        AdminSpendAlertInterval::Unknown(String::new())
    }
}

/// Spend-alert notification channel type.
#[derive(Clone, Debug, PartialEq, Eq)]
pub enum AdminSpendAlertNotificationType {
    Email,
    /// A value this library does not know, kept as received.
    Unknown(String),
}

impl Literal for AdminSpendAlertNotificationType {
    open spec fn literal(&self) -> Seq<char> {
        match self {
            AdminSpendAlertNotificationType::Email => "email"@,
            AdminSpendAlertNotificationType::Unknown(text) => text@,
        }
    }

    fn to_text(&self) -> (r: String) {
        self.as_str().to_string()
    }
}

impl OpenLiteral for AdminSpendAlertNotificationType {
    open spec fn known(text: Seq<char>) -> Option<AdminSpendAlertNotificationType> {
        if text == "email"@ {
            Some(AdminSpendAlertNotificationType::Email)
        } else {
            None
        }
    }

    open spec fn is_unknown(&self) -> bool {
        self is Unknown
    }

    proof fn lemma_known_literal(value: Self) {
        reveal_strlit("email");
        assert("email"@.len() == 5);
    }

    proof fn lemma_known_text(text: Seq<char>) {
    }
}

impl AdminSpendAlertNotificationType {
    /// The text the API uses for this value.
    pub fn as_str(&self) -> (r: &str)
        ensures
            r@ == self.literal(),
    {
        match self {
            AdminSpendAlertNotificationType::Email => "email",
            AdminSpendAlertNotificationType::Unknown(text) => text.as_str(),
        }
    }

    /// The value a text names; a text no variant uses is kept as `Unknown`.
    pub fn from_text(value: &str) -> (r: AdminSpendAlertNotificationType)
        ensures
            r.literal() == value@,
            r.is_unknown() == (AdminSpendAlertNotificationType::known(value@) is None),
            AdminSpendAlertNotificationType::known(value@) matches Some(k) ==> r == k,
    {
        if str_eq(value, "email") {
            AdminSpendAlertNotificationType::Email
        } else {
            AdminSpendAlertNotificationType::Unknown(value.to_string())
        }
    }
}

impl Default for AdminSpendAlertNotificationType {
    fn default() -> (r: AdminSpendAlertNotificationType)
        ensures
            r.literal() == Seq::<char>::empty(),
            r is Unknown,
    {
        AdminSpendAlertNotificationType::Unknown(String::new())
    }
}

/// Organization spend-alert object type.
#[derive(Clone, Debug, PartialEq, Eq)]
pub enum AdminOrganizationSpendAlertObject {
    OrganizationSpendAlert,
    /// A value this library does not know, kept as received.
    Unknown(String),
}

impl Literal for AdminOrganizationSpendAlertObject {
    open spec fn literal(&self) -> Seq<char> {
        match self {
            AdminOrganizationSpendAlertObject::OrganizationSpendAlert => "organization.spend_alert"@,
            AdminOrganizationSpendAlertObject::Unknown(text) => text@,
        }
    }

    fn to_text(&self) -> (r: String) {
        self.as_str().to_string()
    }
}

impl OpenLiteral for AdminOrganizationSpendAlertObject {
    open spec fn known(text: Seq<char>) -> Option<AdminOrganizationSpendAlertObject> {
        if text == "organization.spend_alert"@ {
            Some(AdminOrganizationSpendAlertObject::OrganizationSpendAlert)
        } else {
            None
        }
    }

    open spec fn is_unknown(&self) -> bool {
        self is Unknown
    }

    proof fn lemma_known_literal(value: Self) {
        reveal_strlit("organization.spend_alert");
        assert("organization.spend_alert"@.len() == 24);
    }

    proof fn lemma_known_text(text: Seq<char>) {
    }
}

impl AdminOrganizationSpendAlertObject {
    /// The text the API uses for this value.
    pub fn as_str(&self) -> (r: &str)
        ensures
            r@ == self.literal(),
    {
        match self {
            AdminOrganizationSpendAlertObject::OrganizationSpendAlert => "organization.spend_alert",
            AdminOrganizationSpendAlertObject::Unknown(text) => text.as_str(),
        }
    }

    /// The value a text names; a text no variant uses is kept as `Unknown`.
    pub fn from_text(value: &str) -> (r: AdminOrganizationSpendAlertObject)
        ensures
            r.literal() == value@,
            r.is_unknown() == (AdminOrganizationSpendAlertObject::known(value@) is None),
            AdminOrganizationSpendAlertObject::known(value@) matches Some(k) ==> r == k,
    {
        if str_eq(value, "organization.spend_alert") {
            AdminOrganizationSpendAlertObject::OrganizationSpendAlert
        } else {
            AdminOrganizationSpendAlertObject::Unknown(value.to_string())
        }
    }
}

impl Default for AdminOrganizationSpendAlertObject {
    fn default() -> (r: AdminOrganizationSpendAlertObject)
        ensures
            r.literal() == Seq::<char>::empty(),
            r is Unknown,
    {
        AdminOrganizationSpendAlertObject::Unknown(String::new())
    }
}

/// Organization spend-alert deletion object type.
#[derive(Clone, Debug, PartialEq, Eq)]
pub enum AdminOrganizationSpendAlertDeletedObject {
    OrganizationSpendAlertDeleted,
    /// A value this library does not know, kept as received.
    Unknown(String),
}

impl Literal for AdminOrganizationSpendAlertDeletedObject {
    open spec fn literal(&self) -> Seq<char> {
        match self {
            AdminOrganizationSpendAlertDeletedObject::OrganizationSpendAlertDeleted => "organization.spend_alert.deleted"@,
            AdminOrganizationSpendAlertDeletedObject::Unknown(text) => text@,
        }
    }

    fn to_text(&self) -> (r: String) {
        self.as_str().to_string()
    }
}

impl OpenLiteral for AdminOrganizationSpendAlertDeletedObject {
    open spec fn known(text: Seq<char>) -> Option<AdminOrganizationSpendAlertDeletedObject> {
        if text == "organization.spend_alert.deleted"@ {
            Some(AdminOrganizationSpendAlertDeletedObject::OrganizationSpendAlertDeleted)
        } else {
            None
        }
    }

    open spec fn is_unknown(&self) -> bool {
        self is Unknown
    }

    proof fn lemma_known_literal(value: Self) {
        reveal_strlit("organization.spend_alert.deleted");
        assert("organization.spend_alert.deleted"@.len() == 32);
    }

    proof fn lemma_known_text(text: Seq<char>) {
    }
}

impl AdminOrganizationSpendAlertDeletedObject {
    /// The text the API uses for this value.
    pub fn as_str(&self) -> (r: &str)
        ensures
            r@ == self.literal(),
    {
        match self {
            AdminOrganizationSpendAlertDeletedObject::OrganizationSpendAlertDeleted => "organization.spend_alert.deleted",
            AdminOrganizationSpendAlertDeletedObject::Unknown(text) => text.as_str(),
        }
    }

    /// The value a text names; a text no variant uses is kept as `Unknown`.
    pub fn from_text(value: &str) -> (r: AdminOrganizationSpendAlertDeletedObject)
        ensures
            r.literal() == value@,
            r.is_unknown() == (AdminOrganizationSpendAlertDeletedObject::known(value@) is None),
            AdminOrganizationSpendAlertDeletedObject::known(value@) matches Some(k) ==> r == k,
    {
        if str_eq(value, "organization.spend_alert.deleted") {
            AdminOrganizationSpendAlertDeletedObject::OrganizationSpendAlertDeleted
        } else {
            AdminOrganizationSpendAlertDeletedObject::Unknown(value.to_string())
        }
    }
}

impl Default for AdminOrganizationSpendAlertDeletedObject {
    fn default() -> (r: AdminOrganizationSpendAlertDeletedObject)
        ensures
            r.literal() == Seq::<char>::empty(),
            r is Unknown,
    {
        AdminOrganizationSpendAlertDeletedObject::Unknown(String::new())
    }
}

/// Project spend-alert object type.
#[derive(Clone, Debug, PartialEq, Eq)]
pub enum AdminProjectSpendAlertObject {
    ProjectSpendAlert,
    /// A value this library does not know, kept as received.
    Unknown(String),
}

impl Literal for AdminProjectSpendAlertObject {
    open spec fn literal(&self) -> Seq<char> {
        match self {
            AdminProjectSpendAlertObject::ProjectSpendAlert => "project.spend_alert"@,
            AdminProjectSpendAlertObject::Unknown(text) => text@,
        }
    }

    fn to_text(&self) -> (r: String) {
        self.as_str().to_string()
    }
}

impl OpenLiteral for AdminProjectSpendAlertObject {
    open spec fn known(text: Seq<char>) -> Option<AdminProjectSpendAlertObject> {
        if text == "project.spend_alert"@ {
            Some(AdminProjectSpendAlertObject::ProjectSpendAlert)
        } else {
            None
        }
    }

    open spec fn is_unknown(&self) -> bool {
        self is Unknown
    }

    proof fn lemma_known_literal(value: Self) {
        reveal_strlit("project.spend_alert");
        assert("project.spend_alert"@.len() == 19);
    }

    proof fn lemma_known_text(text: Seq<char>) {
    }
}

impl AdminProjectSpendAlertObject {
    /// The text the API uses for this value.
    pub fn as_str(&self) -> (r: &str)
        ensures
            r@ == self.literal(),
    {
        match self {
            AdminProjectSpendAlertObject::ProjectSpendAlert => "project.spend_alert",
            AdminProjectSpendAlertObject::Unknown(text) => text.as_str(),
        }
    }

    /// The value a text names; a text no variant uses is kept as `Unknown`.
    pub fn from_text(value: &str) -> (r: AdminProjectSpendAlertObject)
        ensures
            r.literal() == value@,
            r.is_unknown() == (AdminProjectSpendAlertObject::known(value@) is None),
            AdminProjectSpendAlertObject::known(value@) matches Some(k) ==> r == k,
    {
        if str_eq(value, "project.spend_alert") {
            AdminProjectSpendAlertObject::ProjectSpendAlert
        } else {
            AdminProjectSpendAlertObject::Unknown(value.to_string())
        }
    }
}

impl Default for AdminProjectSpendAlertObject {
    fn default() -> (r: AdminProjectSpendAlertObject)
        ensures
            r.literal() == Seq::<char>::empty(),
            r is Unknown,
    {
        AdminProjectSpendAlertObject::Unknown(String::new())
    }
}

/// Project spend-alert deletion object type.
#[derive(Clone, Debug, PartialEq, Eq)]
pub enum AdminProjectSpendAlertDeletedObject {
    ProjectSpendAlertDeleted,
    /// A value this library does not know, kept as received.
    Unknown(String),
}

impl Literal for AdminProjectSpendAlertDeletedObject {
    open spec fn literal(&self) -> Seq<char> {
        match self {
            AdminProjectSpendAlertDeletedObject::ProjectSpendAlertDeleted => "project.spend_alert.deleted"@,
            AdminProjectSpendAlertDeletedObject::Unknown(text) => text@,
        }
    }

    fn to_text(&self) -> (r: String) {
        self.as_str().to_string()
    }
}

impl OpenLiteral for AdminProjectSpendAlertDeletedObject {
    open spec fn known(text: Seq<char>) -> Option<AdminProjectSpendAlertDeletedObject> {
        if text == "project.spend_alert.deleted"@ {
            Some(AdminProjectSpendAlertDeletedObject::ProjectSpendAlertDeleted)
        } else {
            None
        }
    }

    open spec fn is_unknown(&self) -> bool {
        self is Unknown
    }

    proof fn lemma_known_literal(value: Self) {
        reveal_strlit("project.spend_alert.deleted");
        assert("project.spend_alert.deleted"@.len() == 27);
    }

    proof fn lemma_known_text(text: Seq<char>) {
    }
}

impl AdminProjectSpendAlertDeletedObject {
    /// The text the API uses for this value.
    pub fn as_str(&self) -> (r: &str)
        ensures
            r@ == self.literal(),
    {
        match self {
            AdminProjectSpendAlertDeletedObject::ProjectSpendAlertDeleted => "project.spend_alert.deleted",
            AdminProjectSpendAlertDeletedObject::Unknown(text) => text.as_str(),
        }
    }

    /// The value a text names; a text no variant uses is kept as `Unknown`.
    pub fn from_text(value: &str) -> (r: AdminProjectSpendAlertDeletedObject)
        ensures
            r.literal() == value@,
            r.is_unknown() == (AdminProjectSpendAlertDeletedObject::known(value@) is None),
            AdminProjectSpendAlertDeletedObject::known(value@) matches Some(k) ==> r == k,
    {
        if str_eq(value, "project.spend_alert.deleted") {
            AdminProjectSpendAlertDeletedObject::ProjectSpendAlertDeleted
        } else {
            AdminProjectSpendAlertDeletedObject::Unknown(value.to_string())
        }
    }
}

impl Default for AdminProjectSpendAlertDeletedObject {
    fn default() -> (r: AdminProjectSpendAlertDeletedObject)
        ensures
            r.literal() == Seq::<char>::empty(),
            r is Unknown,
    {
        AdminProjectSpendAlertDeletedObject::Unknown(String::new())
    }
}

/// Organization project object type.
#[derive(Clone, Debug, PartialEq, Eq)]
pub enum AdminProjectObject {
    OrganizationProject,
    /// A value this library does not know, kept as received.
    Unknown(String),
}

impl Literal for AdminProjectObject {
    open spec fn literal(&self) -> Seq<char> {
        match self {
            AdminProjectObject::OrganizationProject => "organization.project"@,
            AdminProjectObject::Unknown(text) => text@,
        }
    }

    fn to_text(&self) -> (r: String) {
        self.as_str().to_string()
    }
}

impl OpenLiteral for AdminProjectObject {
    open spec fn known(text: Seq<char>) -> Option<AdminProjectObject> {
        if text == "organization.project"@ {
            Some(AdminProjectObject::OrganizationProject)
        } else {
            None
        }
    }

    open spec fn is_unknown(&self) -> bool {
        self is Unknown
    }

    proof fn lemma_known_literal(value: Self) {
        reveal_strlit("organization.project");
        assert("organization.project"@.len() == 20);
    }

    proof fn lemma_known_text(text: Seq<char>) {
    }
}

impl AdminProjectObject {
    /// The text the API uses for this value.
    pub fn as_str(&self) -> (r: &str)
        ensures
            r@ == self.literal(),
    {
        match self {
            AdminProjectObject::OrganizationProject => "organization.project",
            AdminProjectObject::Unknown(text) => text.as_str(),
        }
    }

    /// The value a text names; a text no variant uses is kept as `Unknown`.
    pub fn from_text(value: &str) -> (r: AdminProjectObject)
        ensures
            r.literal() == value@,
            r.is_unknown() == (AdminProjectObject::known(value@) is None),
            AdminProjectObject::known(value@) matches Some(k) ==> r == k,
    {
        if str_eq(value, "organization.project") {
            AdminProjectObject::OrganizationProject
        } else {
            AdminProjectObject::Unknown(value.to_string())
        }
    }
}

impl Default for AdminProjectObject {
    fn default() -> (r: AdminProjectObject)
        ensures
            r.literal() == Seq::<char>::empty(),
            r is Unknown,
    {
        AdminProjectObject::Unknown(String::new())
    }
}

/// Project user object type.
#[derive(Clone, Debug, PartialEq, Eq)]
pub enum AdminProjectUserObject {
    OrganizationProjectUser,
    /// A value this library does not know, kept as received.
    Unknown(String),
}

impl Literal for AdminProjectUserObject {
    open spec fn literal(&self) -> Seq<char> {
        match self {
            AdminProjectUserObject::OrganizationProjectUser => "organization.project.user"@,
            AdminProjectUserObject::Unknown(text) => text@,
        }
    }

    fn to_text(&self) -> (r: String) {
        self.as_str().to_string()
    }
}

impl OpenLiteral for AdminProjectUserObject {
    open spec fn known(text: Seq<char>) -> Option<AdminProjectUserObject> {
        if text == "organization.project.user"@ {
            Some(AdminProjectUserObject::OrganizationProjectUser)
        } else {
            None
        }
    }

    open spec fn is_unknown(&self) -> bool {
        self is Unknown
    }

    proof fn lemma_known_literal(value: Self) {
        reveal_strlit("organization.project.user");
        assert("organization.project.user"@.len() == 25);
    }

    proof fn lemma_known_text(text: Seq<char>) {
    }
}

impl AdminProjectUserObject {
    /// The text the API uses for this value.
    pub fn as_str(&self) -> (r: &str)
        ensures
            r@ == self.literal(),
    {
        match self {
            AdminProjectUserObject::OrganizationProjectUser => "organization.project.user",
            AdminProjectUserObject::Unknown(text) => text.as_str(),
        }
    }

    /// The value a text names; a text no variant uses is kept as `Unknown`.
    pub fn from_text(value: &str) -> (r: AdminProjectUserObject)
        ensures
            r.literal() == value@,
            r.is_unknown() == (AdminProjectUserObject::known(value@) is None),
            AdminProjectUserObject::known(value@) matches Some(k) ==> r == k,
    {
        if str_eq(value, "organization.project.user") {
            AdminProjectUserObject::OrganizationProjectUser
        } else {
            AdminProjectUserObject::Unknown(value.to_string())
        }
    }
}

impl Default for AdminProjectUserObject {
    fn default() -> (r: AdminProjectUserObject)
        ensures
            r.literal() == Seq::<char>::empty(),
            r is Unknown,
    {
        AdminProjectUserObject::Unknown(String::new())
    }
}

/// Project user deletion object type.
#[derive(Clone, Debug, PartialEq, Eq)]
pub enum AdminProjectUserDeletedObject {
    OrganizationProjectUserDeleted,
    /// A value this library does not know, kept as received.
    Unknown(String),
}

impl Literal for AdminProjectUserDeletedObject {
    open spec fn literal(&self) -> Seq<char> {
        match self {
            AdminProjectUserDeletedObject::OrganizationProjectUserDeleted => "organization.project.user.deleted"@,
            AdminProjectUserDeletedObject::Unknown(text) => text@,
        }
    }

    fn to_text(&self) -> (r: String) {
        self.as_str().to_string()
    }
}

impl OpenLiteral for AdminProjectUserDeletedObject {
    open spec fn known(text: Seq<char>) -> Option<AdminProjectUserDeletedObject> {
        if text == "organization.project.user.deleted"@ {
            Some(AdminProjectUserDeletedObject::OrganizationProjectUserDeleted)
        } else {
            None
        }
    }

    open spec fn is_unknown(&self) -> bool {
        self is Unknown
    }

    proof fn lemma_known_literal(value: Self) {
        reveal_strlit("organization.project.user.deleted");
        assert("organization.project.user.deleted"@.len() == 33);
    }

    proof fn lemma_known_text(text: Seq<char>) {
    }
}

impl AdminProjectUserDeletedObject {
    /// The text the API uses for this value.
    pub fn as_str(&self) -> (r: &str)
        ensures
            r@ == self.literal(),
    {
        match self {
            AdminProjectUserDeletedObject::OrganizationProjectUserDeleted => "organization.project.user.deleted",
            AdminProjectUserDeletedObject::Unknown(text) => text.as_str(),
        }
    }

    /// The value a text names; a text no variant uses is kept as `Unknown`.
    pub fn from_text(value: &str) -> (r: AdminProjectUserDeletedObject)
        ensures
            r.literal() == value@,
            r.is_unknown() == (AdminProjectUserDeletedObject::known(value@) is None),
            AdminProjectUserDeletedObject::known(value@) matches Some(k) ==> r == k,
    {
        if str_eq(value, "organization.project.user.deleted") {
            AdminProjectUserDeletedObject::OrganizationProjectUserDeleted
        } else {
            AdminProjectUserDeletedObject::Unknown(value.to_string())
        }
    }
}

impl Default for AdminProjectUserDeletedObject {
    fn default() -> (r: AdminProjectUserDeletedObject)
        ensures
            r.literal() == Seq::<char>::empty(),
            r is Unknown,
    {
        AdminProjectUserDeletedObject::Unknown(String::new())
    }
}

/// Project service-account object type.
#[derive(Clone, Debug, PartialEq, Eq)]
pub enum AdminProjectServiceAccountObject {
    OrganizationProjectServiceAccount,
    /// A value this library does not know, kept as received.
    Unknown(String),
}

impl Literal for AdminProjectServiceAccountObject {
    open spec fn literal(&self) -> Seq<char> {
        match self {
            AdminProjectServiceAccountObject::OrganizationProjectServiceAccount => "organization.project.service_account"@,
            AdminProjectServiceAccountObject::Unknown(text) => text@,
        }
    }

    fn to_text(&self) -> (r: String) {
        self.as_str().to_string()
    }
}

impl OpenLiteral for AdminProjectServiceAccountObject {
    open spec fn known(text: Seq<char>) -> Option<AdminProjectServiceAccountObject> {
        if text == "organization.project.service_account"@ {
            Some(AdminProjectServiceAccountObject::OrganizationProjectServiceAccount)
        } else {
            None
        }
    }

    open spec fn is_unknown(&self) -> bool {
        self is Unknown
    }

    proof fn lemma_known_literal(value: Self) {
        reveal_strlit("organization.project.service_account");
        assert("organization.project.service_account"@.len() == 36);
    }

    proof fn lemma_known_text(text: Seq<char>) {
    }
}

impl AdminProjectServiceAccountObject {
    /// The text the API uses for this value.
    pub fn as_str(&self) -> (r: &str)
        ensures
            r@ == self.literal(),
    {
        match self {
            AdminProjectServiceAccountObject::OrganizationProjectServiceAccount => "organization.project.service_account",
            AdminProjectServiceAccountObject::Unknown(text) => text.as_str(),
        }
    }

    /// The value a text names; a text no variant uses is kept as `Unknown`.
    pub fn from_text(value: &str) -> (r: AdminProjectServiceAccountObject)
        ensures
            r.literal() == value@,
            r.is_unknown() == (AdminProjectServiceAccountObject::known(value@) is None),
            AdminProjectServiceAccountObject::known(value@) matches Some(k) ==> r == k,
    {
        if str_eq(value, "organization.project.service_account") {
            AdminProjectServiceAccountObject::OrganizationProjectServiceAccount
        } else {
            AdminProjectServiceAccountObject::Unknown(value.to_string())
        }
    }
}

impl Default for AdminProjectServiceAccountObject {
    fn default() -> (r: AdminProjectServiceAccountObject)
        ensures
            r.literal() == Seq::<char>::empty(),
            r is Unknown,
    {
        AdminProjectServiceAccountObject::Unknown(String::new())
    }
}

/// Project service-account API key object type.
#[derive(Clone, Debug, PartialEq, Eq)]
pub enum AdminProjectServiceAccountApiKeyObject {
    OrganizationProjectServiceAccountApiKey,
    /// A value this library does not know, kept as received.
    Unknown(String),
}

impl Literal for AdminProjectServiceAccountApiKeyObject {
    open spec fn literal(&self) -> Seq<char> {
        match self {
            AdminProjectServiceAccountApiKeyObject::OrganizationProjectServiceAccountApiKey => "organization.project.service_account.api_key"@,
            AdminProjectServiceAccountApiKeyObject::Unknown(text) => text@,
        }
    }

    fn to_text(&self) -> (r: String) {
        self.as_str().to_string()
    }
}

impl OpenLiteral for AdminProjectServiceAccountApiKeyObject {
    open spec fn known(text: Seq<char>) -> Option<AdminProjectServiceAccountApiKeyObject> {
        if text == "organization.project.service_account.api_key"@ {
            Some(AdminProjectServiceAccountApiKeyObject::OrganizationProjectServiceAccountApiKey)
        } else {
            None
        }
    }

    open spec fn is_unknown(&self) -> bool {
        self is Unknown
    }

    proof fn lemma_known_literal(value: Self) {
        reveal_strlit("organization.project.service_account.api_key");
        assert("organization.project.service_account.api_key"@.len() == 44);
    }

    proof fn lemma_known_text(text: Seq<char>) {
    }
}

impl AdminProjectServiceAccountApiKeyObject {
    /// The text the API uses for this value.
    pub fn as_str(&self) -> (r: &str)
        ensures
            r@ == self.literal(),
    {
        match self {
            AdminProjectServiceAccountApiKeyObject::OrganizationProjectServiceAccountApiKey => "organization.project.service_account.api_key",
            AdminProjectServiceAccountApiKeyObject::Unknown(text) => text.as_str(),
        }
    }

    /// The value a text names; a text no variant uses is kept as `Unknown`.
    pub fn from_text(value: &str) -> (r: AdminProjectServiceAccountApiKeyObject)
        ensures
            r.literal() == value@,
            r.is_unknown() == (AdminProjectServiceAccountApiKeyObject::known(value@) is None),
            AdminProjectServiceAccountApiKeyObject::known(value@) matches Some(k) ==> r == k,
    {
        if str_eq(value, "organization.project.service_account.api_key") {
            AdminProjectServiceAccountApiKeyObject::OrganizationProjectServiceAccountApiKey
        } else {
            AdminProjectServiceAccountApiKeyObject::Unknown(value.to_string())
        }
    }
}

impl Default for AdminProjectServiceAccountApiKeyObject {
    fn default() -> (r: AdminProjectServiceAccountApiKeyObject)
        ensures
            r.literal() == Seq::<char>::empty(),
            r is Unknown,
    {
        AdminProjectServiceAccountApiKeyObject::Unknown(String::new())
    }
}

/// Project service-account deletion object type.
#[derive(Clone, Debug, PartialEq, Eq)]
pub enum AdminProjectServiceAccountDeletedObject {
    OrganizationProjectServiceAccountDeleted,
    /// A value this library does not know, kept as received.
    Unknown(String),
}

impl Literal for AdminProjectServiceAccountDeletedObject {
    open spec fn literal(&self) -> Seq<char> {
        match self {
            AdminProjectServiceAccountDeletedObject::OrganizationProjectServiceAccountDeleted => "organization.project.service_account.deleted"@,
            AdminProjectServiceAccountDeletedObject::Unknown(text) => text@,
        }
    }

    fn to_text(&self) -> (r: String) {
        self.as_str().to_string()
    }
}

impl OpenLiteral for AdminProjectServiceAccountDeletedObject {
    open spec fn known(text: Seq<char>) -> Option<AdminProjectServiceAccountDeletedObject> {
        if text == "organization.project.service_account.deleted"@ {
            Some(AdminProjectServiceAccountDeletedObject::OrganizationProjectServiceAccountDeleted)
        } else {
            None
        }
    }

    open spec fn is_unknown(&self) -> bool {
        self is Unknown
    }

    proof fn lemma_known_literal(value: Self) {
        reveal_strlit("organization.project.service_account.deleted");
        assert("organization.project.service_account.deleted"@.len() == 44);
    }

    proof fn lemma_known_text(text: Seq<char>) {
    }
}

impl AdminProjectServiceAccountDeletedObject {
    /// The text the API uses for this value.
    pub fn as_str(&self) -> (r: &str)
        ensures
            r@ == self.literal(),
    {
        match self {
            AdminProjectServiceAccountDeletedObject::OrganizationProjectServiceAccountDeleted => "organization.project.service_account.deleted",
            AdminProjectServiceAccountDeletedObject::Unknown(text) => text.as_str(),
        }
    }

    /// The value a text names; a text no variant uses is kept as `Unknown`.
    pub fn from_text(value: &str) -> (r: AdminProjectServiceAccountDeletedObject)
        ensures
            r.literal() == value@,
            r.is_unknown() == (AdminProjectServiceAccountDeletedObject::known(value@) is None),
            AdminProjectServiceAccountDeletedObject::known(value@) matches Some(k) ==> r == k,
    {
        if str_eq(value, "organization.project.service_account.deleted") {
            AdminProjectServiceAccountDeletedObject::OrganizationProjectServiceAccountDeleted
        } else {
            AdminProjectServiceAccountDeletedObject::Unknown(value.to_string())
        }
    }
}

impl Default for AdminProjectServiceAccountDeletedObject {
    fn default() -> (r: AdminProjectServiceAccountDeletedObject)
        ensures
            r.literal() == Seq::<char>::empty(),
            r is Unknown,
    {
        AdminProjectServiceAccountDeletedObject::Unknown(String::new())
    }
}

/// Project model-permission mode.
#[derive(Clone, Debug, PartialEq, Eq)]
pub enum AdminProjectModelPermissionMode {
    AllowList,
    DenyList,
    /// A value this library does not know, kept as received.
    Unknown(String),
}

impl Literal for AdminProjectModelPermissionMode {
    open spec fn literal(&self) -> Seq<char> {
        match self {
            AdminProjectModelPermissionMode::AllowList => "allow_list"@,
            AdminProjectModelPermissionMode::DenyList => "deny_list"@,
            AdminProjectModelPermissionMode::Unknown(text) => text@,
        }
    }

    fn to_text(&self) -> (r: String) {
        self.as_str().to_string()
    }
}

impl OpenLiteral for AdminProjectModelPermissionMode {
    open spec fn known(text: Seq<char>) -> Option<AdminProjectModelPermissionMode> {
        if text == "allow_list"@ {
            Some(AdminProjectModelPermissionMode::AllowList)
        } else if text == "deny_list"@ {
            Some(AdminProjectModelPermissionMode::DenyList)
        } else {
            None
        }
    }

    open spec fn is_unknown(&self) -> bool {
        self is Unknown
    }

    proof fn lemma_known_literal(value: Self) {
        reveal_strlit("allow_list");
        reveal_strlit("deny_list");
        assert("allow_list"@.len() == 10);
        assert("deny_list"@.len() == 9);
    }

    proof fn lemma_known_text(text: Seq<char>) {
    }
}

impl AdminProjectModelPermissionMode {
    /// The text the API uses for this value.
    pub fn as_str(&self) -> (r: &str)
        ensures
            r@ == self.literal(),
    {
        match self {
            AdminProjectModelPermissionMode::AllowList => "allow_list",
            AdminProjectModelPermissionMode::DenyList => "deny_list",
            AdminProjectModelPermissionMode::Unknown(text) => text.as_str(),
        }
    }

    /// The value a text names; a text no variant uses is kept as `Unknown`.
    pub fn from_text(value: &str) -> (r: AdminProjectModelPermissionMode)
        ensures
            r.literal() == value@,
            r.is_unknown() == (AdminProjectModelPermissionMode::known(value@) is None),
            AdminProjectModelPermissionMode::known(value@) matches Some(k) ==> r == k,
    {
        if str_eq(value, "allow_list") {
            AdminProjectModelPermissionMode::AllowList
        } else if str_eq(value, "deny_list") {
            AdminProjectModelPermissionMode::DenyList
        } else {
            AdminProjectModelPermissionMode::Unknown(value.to_string())
        }
    }
}

impl Default for AdminProjectModelPermissionMode {
    fn default() -> (r: AdminProjectModelPermissionMode)
        ensures
            r.literal() == Seq::<char>::empty(),
            r is Unknown,
    {
        AdminProjectModelPermissionMode::Unknown(String::new())
    }
}

/// Project model permissions object type.
#[derive(Clone, Debug, PartialEq, Eq)]
pub enum AdminProjectModelPermissionsObject {
    ProjectModelPermissions,
    /// A value this library does not know, kept as received.
    Unknown(String),
}

impl Literal for AdminProjectModelPermissionsObject {
    open spec fn literal(&self) -> Seq<char> {
        match self {
            AdminProjectModelPermissionsObject::ProjectModelPermissions => "project.model_permissions"@,
            AdminProjectModelPermissionsObject::Unknown(text) => text@,
        }
    }

    fn to_text(&self) -> (r: String) {
        self.as_str().to_string()
    }
}

impl OpenLiteral for AdminProjectModelPermissionsObject {
    open spec fn known(text: Seq<char>) -> Option<AdminProjectModelPermissionsObject> {
        if text == "project.model_permissions"@ {
            Some(AdminProjectModelPermissionsObject::ProjectModelPermissions)
        } else {
            None
        }
    }

    open spec fn is_unknown(&self) -> bool {
        self is Unknown
    }

    proof fn lemma_known_literal(value: Self) {
        reveal_strlit("project.model_permissions");
        assert("project.model_permissions"@.len() == 25);
    }

    proof fn lemma_known_text(text: Seq<char>) {
    }
}

impl AdminProjectModelPermissionsObject {
    /// The text the API uses for this value.
    pub fn as_str(&self) -> (r: &str)
        ensures
            r@ == self.literal(),
    {
        match self {
            AdminProjectModelPermissionsObject::ProjectModelPermissions => "project.model_permissions",
            AdminProjectModelPermissionsObject::Unknown(text) => text.as_str(),
        }
    }

    /// The value a text names; a text no variant uses is kept as `Unknown`.
    pub fn from_text(value: &str) -> (r: AdminProjectModelPermissionsObject)
        ensures
            r.literal() == value@,
            r.is_unknown() == (AdminProjectModelPermissionsObject::known(value@) is None),
            AdminProjectModelPermissionsObject::known(value@) matches Some(k) ==> r == k,
    {
        if str_eq(value, "project.model_permissions") {
            AdminProjectModelPermissionsObject::ProjectModelPermissions
        } else {
            AdminProjectModelPermissionsObject::Unknown(value.to_string())
        }
    }
}

impl Default for AdminProjectModelPermissionsObject {
    fn default() -> (r: AdminProjectModelPermissionsObject)
        ensures
            r.literal() == Seq::<char>::empty(),
            r is Unknown,
    {
        AdminProjectModelPermissionsObject::Unknown(String::new())
    }
}

/// Project model permissions deletion object type.
#[derive(Clone, Debug, PartialEq, Eq)]
pub enum AdminProjectModelPermissionsDeletedObject {
    ProjectModelPermissionsDeleted,
    /// A value this library does not know, kept as received.
    Unknown(String),
}

impl Literal for AdminProjectModelPermissionsDeletedObject {
    open spec fn literal(&self) -> Seq<char> {
        match self {
            AdminProjectModelPermissionsDeletedObject::ProjectModelPermissionsDeleted => "project.model_permissions.deleted"@,
            AdminProjectModelPermissionsDeletedObject::Unknown(text) => text@,
        }
    }

    fn to_text(&self) -> (r: String) {
        self.as_str().to_string()
    }
}

impl OpenLiteral for AdminProjectModelPermissionsDeletedObject {
    open spec fn known(text: Seq<char>) -> Option<AdminProjectModelPermissionsDeletedObject> {
        if text == "project.model_permissions.deleted"@ {
            Some(AdminProjectModelPermissionsDeletedObject::ProjectModelPermissionsDeleted)
        } else {
            None
        }
    }

    open spec fn is_unknown(&self) -> bool {
        self is Unknown
    }

    proof fn lemma_known_literal(value: Self) {
        reveal_strlit("project.model_permissions.deleted");
        assert("project.model_permissions.deleted"@.len() == 33);
    }

    proof fn lemma_known_text(text: Seq<char>) {
    }
}

impl AdminProjectModelPermissionsDeletedObject {
    /// The text the API uses for this value.
    pub fn as_str(&self) -> (r: &str)
        ensures
            r@ == self.literal(),
    {
        match self {
            AdminProjectModelPermissionsDeletedObject::ProjectModelPermissionsDeleted => "project.model_permissions.deleted",
            AdminProjectModelPermissionsDeletedObject::Unknown(text) => text.as_str(),
        }
    }

    /// The value a text names; a text no variant uses is kept as `Unknown`.
    pub fn from_text(value: &str) -> (r: AdminProjectModelPermissionsDeletedObject)
        ensures
            r.literal() == value@,
            r.is_unknown() == (AdminProjectModelPermissionsDeletedObject::known(value@) is None),
            AdminProjectModelPermissionsDeletedObject::known(value@) matches Some(k) ==> r == k,
    {
        if str_eq(value, "project.model_permissions.deleted") {
            AdminProjectModelPermissionsDeletedObject::ProjectModelPermissionsDeleted
        } else {
            AdminProjectModelPermissionsDeletedObject::Unknown(value.to_string())
        }
    }
}

impl Default for AdminProjectModelPermissionsDeletedObject {
    fn default() -> (r: AdminProjectModelPermissionsDeletedObject)
        ensures
            r.literal() == Seq::<char>::empty(),
            r is Unknown,
    {
        AdminProjectModelPermissionsDeletedObject::Unknown(String::new())
    }
}

/// Organization group type.
#[derive(Clone, Debug, PartialEq, Eq)]
pub enum AdminGroupType {
    Group,
    TenantGroup,
    /// A value this library does not know, kept as received.
    Unknown(String),
}

impl Literal for AdminGroupType {
    open spec fn literal(&self) -> Seq<char> {
        match self {
            AdminGroupType::Group => "group"@,
            AdminGroupType::TenantGroup => "tenant_group"@,
            AdminGroupType::Unknown(text) => text@,
        }
    }

    fn to_text(&self) -> (r: String) {
        self.as_str().to_string()
    }
}

impl OpenLiteral for AdminGroupType {
    open spec fn known(text: Seq<char>) -> Option<AdminGroupType> {
        if text == "group"@ {
            Some(AdminGroupType::Group)
        } else if text == "tenant_group"@ {
            Some(AdminGroupType::TenantGroup)
        } else {
            None
        }
    }

    open spec fn is_unknown(&self) -> bool {
        self is Unknown
    }

    proof fn lemma_known_literal(value: Self) {
        reveal_strlit("group");
        reveal_strlit("tenant_group");
        assert("group"@.len() == 5);
        assert("tenant_group"@.len() == 12);
    }

    proof fn lemma_known_text(text: Seq<char>) {
    }
}

impl AdminGroupType {
    /// The text the API uses for this value.
    pub fn as_str(&self) -> (r: &str)
        ensures
            r@ == self.literal(),
    {
        match self {
            AdminGroupType::Group => "group",
            AdminGroupType::TenantGroup => "tenant_group",
            AdminGroupType::Unknown(text) => text.as_str(),
        }
    }

    /// The value a text names; a text no variant uses is kept as `Unknown`.
    pub fn from_text(value: &str) -> (r: AdminGroupType)
        ensures
            r.literal() == value@,
            r.is_unknown() == (AdminGroupType::known(value@) is None),
            AdminGroupType::known(value@) matches Some(k) ==> r == k,
    {
        if str_eq(value, "group") {
            AdminGroupType::Group
        } else if str_eq(value, "tenant_group") {
            AdminGroupType::TenantGroup
        } else {
            AdminGroupType::Unknown(value.to_string())
        }
    }
}

impl Default for AdminGroupType {
    fn default() -> (r: AdminGroupType)
        ensures
            r.literal() == Seq::<char>::empty(),
            r is Unknown,
    {
        AdminGroupType::Unknown(String::new())
    }
}

/// Organization group deletion object type.
#[derive(Clone, Debug, PartialEq, Eq)]
pub enum AdminGroupDeletedObject {
    GroupDeleted,
    /// A value this library does not know, kept as received.
    Unknown(String),
}

impl Literal for AdminGroupDeletedObject {
    open spec fn literal(&self) -> Seq<char> {
        match self {
            AdminGroupDeletedObject::GroupDeleted => "group.deleted"@,
            AdminGroupDeletedObject::Unknown(text) => text@,
        }
    }

    fn to_text(&self) -> (r: String) {
        self.as_str().to_string()
    }
}

impl OpenLiteral for AdminGroupDeletedObject {
    open spec fn known(text: Seq<char>) -> Option<AdminGroupDeletedObject> {
        if text == "group.deleted"@ {
            Some(AdminGroupDeletedObject::GroupDeleted)
        } else {
            None
        }
    }

    open spec fn is_unknown(&self) -> bool {
        self is Unknown
    }

    proof fn lemma_known_literal(value: Self) {
        reveal_strlit("group.deleted");
        assert("group.deleted"@.len() == 13);
    }

    proof fn lemma_known_text(text: Seq<char>) {
    }
}

impl AdminGroupDeletedObject {
    /// The text the API uses for this value.
    pub fn as_str(&self) -> (r: &str)
        ensures
            r@ == self.literal(),
    {
        match self {
            AdminGroupDeletedObject::GroupDeleted => "group.deleted",
            AdminGroupDeletedObject::Unknown(text) => text.as_str(),
        }
    }

    /// The value a text names; a text no variant uses is kept as `Unknown`.
    pub fn from_text(value: &str) -> (r: AdminGroupDeletedObject)
        ensures
            r.literal() == value@,
            r.is_unknown() == (AdminGroupDeletedObject::known(value@) is None),
            AdminGroupDeletedObject::known(value@) matches Some(k) ==> r == k,
    {
        if str_eq(value, "group.deleted") {
            AdminGroupDeletedObject::GroupDeleted
        } else {
            AdminGroupDeletedObject::Unknown(value.to_string())
        }
    }
}

impl Default for AdminGroupDeletedObject {
    fn default() -> (r: AdminGroupDeletedObject)
        ensures
            r.literal() == Seq::<char>::empty(),
            r is Unknown,
    {
        AdminGroupDeletedObject::Unknown(String::new())
    }
}

/// Organization group object type.
#[derive(Clone, Debug, PartialEq, Eq)]
pub enum AdminGroupObject {
    Group,
    /// A value this library does not know, kept as received.
    Unknown(String),
}

impl Literal for AdminGroupObject {
    open spec fn literal(&self) -> Seq<char> {
        match self {
            AdminGroupObject::Group => "group"@,
            AdminGroupObject::Unknown(text) => text@,
        }
    }

    fn to_text(&self) -> (r: String) {
        self.as_str().to_string()
    }
}

impl OpenLiteral for AdminGroupObject {
    open spec fn known(text: Seq<char>) -> Option<AdminGroupObject> {
        if text == "group"@ {
            Some(AdminGroupObject::Group)
        } else {
            None
        }
    }

    open spec fn is_unknown(&self) -> bool {
        self is Unknown
    }

    proof fn lemma_known_literal(value: Self) {
        reveal_strlit("group");
        assert("group"@.len() == 5);
    }

    proof fn lemma_known_text(text: Seq<char>) {
    }
}

impl AdminGroupObject {
    /// The text the API uses for this value.
    pub fn as_str(&self) -> (r: &str)
        ensures
            r@ == self.literal(),
    {
        match self {
            AdminGroupObject::Group => "group",
            AdminGroupObject::Unknown(text) => text.as_str(),
        }
    }

    /// The value a text names; a text no variant uses is kept as `Unknown`.
    pub fn from_text(value: &str) -> (r: AdminGroupObject)
        ensures
            r.literal() == value@,
            r.is_unknown() == (AdminGroupObject::known(value@) is None),
            AdminGroupObject::known(value@) matches Some(k) ==> r == k,
    {
        if str_eq(value, "group") {
            AdminGroupObject::Group
        } else {
            AdminGroupObject::Unknown(value.to_string())
        }
    }
}

impl Default for AdminGroupObject {
    fn default() -> (r: AdminGroupObject)
        ensures
            r.literal() == Seq::<char>::empty(),
            r is Unknown,
    {
        AdminGroupObject::Unknown(String::new())
    }
}

/// Organization group-user membership object type.
#[derive(Clone, Debug, PartialEq, Eq)]
pub enum AdminGroupUserObject {
    GroupUser,
    /// A value this library does not know, kept as received.
    Unknown(String),
}

impl Literal for AdminGroupUserObject {
    open spec fn literal(&self) -> Seq<char> {
        match self {
            AdminGroupUserObject::GroupUser => "group.user"@,
            AdminGroupUserObject::Unknown(text) => text@,
        }
    }

    fn to_text(&self) -> (r: String) {
        self.as_str().to_string()
    }
}

impl OpenLiteral for AdminGroupUserObject {
    open spec fn known(text: Seq<char>) -> Option<AdminGroupUserObject> {
        if text == "group.user"@ {
            Some(AdminGroupUserObject::GroupUser)
        } else {
            None
        }
    }

    open spec fn is_unknown(&self) -> bool {
        self is Unknown
    }

    proof fn lemma_known_literal(value: Self) {
        reveal_strlit("group.user");
        assert("group.user"@.len() == 10);
    }

    proof fn lemma_known_text(text: Seq<char>) {
    }
}

impl AdminGroupUserObject {
    /// The text the API uses for this value.
    pub fn as_str(&self) -> (r: &str)
        ensures
            r@ == self.literal(),
    {
        match self {
            AdminGroupUserObject::GroupUser => "group.user",
            AdminGroupUserObject::Unknown(text) => text.as_str(),
        }
    }

    /// The value a text names; a text no variant uses is kept as `Unknown`.
    pub fn from_text(value: &str) -> (r: AdminGroupUserObject)
        ensures
            r.literal() == value@,
            r.is_unknown() == (AdminGroupUserObject::known(value@) is None),
            AdminGroupUserObject::known(value@) matches Some(k) ==> r == k,
    {
        if str_eq(value, "group.user") {
            AdminGroupUserObject::GroupUser
        } else {
            AdminGroupUserObject::Unknown(value.to_string())
        }
    }
}

impl Default for AdminGroupUserObject {
    fn default() -> (r: AdminGroupUserObject)
        ensures
            r.literal() == Seq::<char>::empty(),
            r is Unknown,
    {
        AdminGroupUserObject::Unknown(String::new())
    }
}

/// Organization group-user membership deletion object type.
#[derive(Clone, Debug, PartialEq, Eq)]
pub enum AdminGroupUserDeletedObject {
    GroupUserDeleted,
    /// A value this library does not know, kept as received.
    Unknown(String),
}

impl Literal for AdminGroupUserDeletedObject {
    open spec fn literal(&self) -> Seq<char> {
        match self {
            AdminGroupUserDeletedObject::GroupUserDeleted => "group.user.deleted"@,
            AdminGroupUserDeletedObject::Unknown(text) => text@,
        }
    }

    fn to_text(&self) -> (r: String) {
        self.as_str().to_string()
    }
}

impl OpenLiteral for AdminGroupUserDeletedObject {
    open spec fn known(text: Seq<char>) -> Option<AdminGroupUserDeletedObject> {
        if text == "group.user.deleted"@ {
            Some(AdminGroupUserDeletedObject::GroupUserDeleted)
        } else {
            None
        }
    }

    open spec fn is_unknown(&self) -> bool {
        self is Unknown
    }

    proof fn lemma_known_literal(value: Self) {
        reveal_strlit("group.user.deleted");
        assert("group.user.deleted"@.len() == 18);
    }

    proof fn lemma_known_text(text: Seq<char>) {
    }
}

impl AdminGroupUserDeletedObject {
    /// The text the API uses for this value.
    pub fn as_str(&self) -> (r: &str)
        ensures
            r@ == self.literal(),
    {
        match self {
            AdminGroupUserDeletedObject::GroupUserDeleted => "group.user.deleted",
            AdminGroupUserDeletedObject::Unknown(text) => text.as_str(),
        }
    }

    /// The value a text names; a text no variant uses is kept as `Unknown`.
    pub fn from_text(value: &str) -> (r: AdminGroupUserDeletedObject)
        ensures
            r.literal() == value@,
            r.is_unknown() == (AdminGroupUserDeletedObject::known(value@) is None),
            AdminGroupUserDeletedObject::known(value@) matches Some(k) ==> r == k,
    {
        if str_eq(value, "group.user.deleted") {
            AdminGroupUserDeletedObject::GroupUserDeleted
        } else {
            AdminGroupUserDeletedObject::Unknown(value.to_string())
        }
    }
}

impl Default for AdminGroupUserDeletedObject {
    fn default() -> (r: AdminGroupUserDeletedObject)
        ensures
            r.literal() == Seq::<char>::empty(),
            r is Unknown,
    {
        AdminGroupUserDeletedObject::Unknown(String::new())
    }
}

/// User type returned from organization group membership lookups.
#[derive(Clone, Debug, PartialEq, Eq)]
pub enum AdminGroupUserType {
    User,
    TenantUser,
    /// A value this library does not know, kept as received.
    Unknown(String),
}

impl Literal for AdminGroupUserType {
    open spec fn literal(&self) -> Seq<char> {
        match self {
            AdminGroupUserType::User => "user"@,
            AdminGroupUserType::TenantUser => "tenant_user"@,
            AdminGroupUserType::Unknown(text) => text@,
        }
    }

    fn to_text(&self) -> (r: String) {
        self.as_str().to_string()
    }
}

impl OpenLiteral for AdminGroupUserType {
    open spec fn known(text: Seq<char>) -> Option<AdminGroupUserType> {
        if text == "user"@ {
            Some(AdminGroupUserType::User)
        } else if text == "tenant_user"@ {
            Some(AdminGroupUserType::TenantUser)
        } else {
            None
        }
    }

    open spec fn is_unknown(&self) -> bool {
        self is Unknown
    }

    proof fn lemma_known_literal(value: Self) {
        reveal_strlit("user");
        reveal_strlit("tenant_user");
        assert("user"@.len() == 4);
        assert("tenant_user"@.len() == 11);
    }

    proof fn lemma_known_text(text: Seq<char>) {
    }
}

impl AdminGroupUserType {
    /// The text the API uses for this value.
    pub fn as_str(&self) -> (r: &str)
        ensures
            r@ == self.literal(),
    {
        match self {
            AdminGroupUserType::User => "user",
            AdminGroupUserType::TenantUser => "tenant_user",
            AdminGroupUserType::Unknown(text) => text.as_str(),
        }
    }

    /// The value a text names; a text no variant uses is kept as `Unknown`.
    pub fn from_text(value: &str) -> (r: AdminGroupUserType)
        ensures
            r.literal() == value@,
            r.is_unknown() == (AdminGroupUserType::known(value@) is None),
            AdminGroupUserType::known(value@) matches Some(k) ==> r == k,
    {
        if str_eq(value, "user") {
            AdminGroupUserType::User
        } else if str_eq(value, "tenant_user") {
            AdminGroupUserType::TenantUser
        } else {
            AdminGroupUserType::Unknown(value.to_string())
        }
    }
}

impl Default for AdminGroupUserType {
    fn default() -> (r: AdminGroupUserType)
        ensures
            r.literal() == Seq::<char>::empty(),
            r is Unknown,
    {
        AdminGroupUserType::Unknown(String::new())
    }
}

/// Organization role object type.
#[derive(Clone, Debug, PartialEq, Eq)]
pub enum AdminRoleObject {
    Role,
    /// A value this library does not know, kept as received.
    Unknown(String),
}

impl Literal for AdminRoleObject {
    open spec fn literal(&self) -> Seq<char> {
        match self {
            AdminRoleObject::Role => "role"@,
            AdminRoleObject::Unknown(text) => text@,
        }
    }

    fn to_text(&self) -> (r: String) {
        self.as_str().to_string()
    }
}

impl OpenLiteral for AdminRoleObject {
    open spec fn known(text: Seq<char>) -> Option<AdminRoleObject> {
        if text == "role"@ {
            Some(AdminRoleObject::Role)
        } else {
            None
        }
    }

    open spec fn is_unknown(&self) -> bool {
        self is Unknown
    }

    proof fn lemma_known_literal(value: Self) {
        reveal_strlit("role");
        assert("role"@.len() == 4);
    }

    proof fn lemma_known_text(text: Seq<char>) {
    }
}

impl AdminRoleObject {
    /// The text the API uses for this value.
    pub fn as_str(&self) -> (r: &str)
        ensures
            r@ == self.literal(),
    {
        match self {
            AdminRoleObject::Role => "role",
            AdminRoleObject::Unknown(text) => text.as_str(),
        }
    }

    /// The value a text names; a text no variant uses is kept as `Unknown`.
    pub fn from_text(value: &str) -> (r: AdminRoleObject)
        ensures
            r.literal() == value@,
            r.is_unknown() == (AdminRoleObject::known(value@) is None),
            AdminRoleObject::known(value@) matches Some(k) ==> r == k,
    {
        if str_eq(value, "role") {
            AdminRoleObject::Role
        } else {
            AdminRoleObject::Unknown(value.to_string())
        }
    }
}

impl Default for AdminRoleObject {
    fn default() -> (r: AdminRoleObject)
        ensures
            r.literal() == Seq::<char>::empty(),
            r is Unknown,
    {
        AdminRoleObject::Unknown(String::new())
    }
}

/// Organization role deletion object type.
#[derive(Clone, Debug, PartialEq, Eq)]
pub enum AdminRoleDeletedObject {
    RoleDeleted,
    /// A value this library does not know, kept as received.
    Unknown(String),
}

impl Literal for AdminRoleDeletedObject {
    open spec fn literal(&self) -> Seq<char> {
        match self {
            AdminRoleDeletedObject::RoleDeleted => "role.deleted"@,
            AdminRoleDeletedObject::Unknown(text) => text@,
        }
    }

    fn to_text(&self) -> (r: String) {
        self.as_str().to_string()
    }
}

impl OpenLiteral for AdminRoleDeletedObject {
    open spec fn known(text: Seq<char>) -> Option<AdminRoleDeletedObject> {
        if text == "role.deleted"@ {
            Some(AdminRoleDeletedObject::RoleDeleted)
        } else {
            None
        }
    }

    open spec fn is_unknown(&self) -> bool {
        self is Unknown
    }

    proof fn lemma_known_literal(value: Self) {
        reveal_strlit("role.deleted");
        assert("role.deleted"@.len() == 12);
    }

    proof fn lemma_known_text(text: Seq<char>) {
    }
}

impl AdminRoleDeletedObject {
    /// The text the API uses for this value.
    pub fn as_str(&self) -> (r: &str)
        ensures
            r@ == self.literal(),
    {
        match self {
            AdminRoleDeletedObject::RoleDeleted => "role.deleted",
            AdminRoleDeletedObject::Unknown(text) => text.as_str(),
        }
    }

    /// The value a text names; a text no variant uses is kept as `Unknown`.
    pub fn from_text(value: &str) -> (r: AdminRoleDeletedObject)
        ensures
            r.literal() == value@,
            r.is_unknown() == (AdminRoleDeletedObject::known(value@) is None),
            AdminRoleDeletedObject::known(value@) matches Some(k) ==> r == k,
    {
        if str_eq(value, "role.deleted") {
            AdminRoleDeletedObject::RoleDeleted
        } else {
            AdminRoleDeletedObject::Unknown(value.to_string())
        }
    }
}

impl Default for AdminRoleDeletedObject {
    fn default() -> (r: AdminRoleDeletedObject)
        ensures
            r.literal() == Seq::<char>::empty(),
            r is Unknown,
    {
        AdminRoleDeletedObject::Unknown(String::new())
    }
}

/// Organization group-role assignment object type.
#[derive(Clone, Debug, PartialEq, Eq)]
pub enum AdminGroupRoleObject {
    GroupRole,
    /// A value this library does not know, kept as received.
    Unknown(String),
}

impl Literal for AdminGroupRoleObject {
    open spec fn literal(&self) -> Seq<char> {
        match self {
            AdminGroupRoleObject::GroupRole => "group.role"@,
            AdminGroupRoleObject::Unknown(text) => text@,
        }
    }

    fn to_text(&self) -> (r: String) {
        self.as_str().to_string()
    }
}

impl OpenLiteral for AdminGroupRoleObject {
    open spec fn known(text: Seq<char>) -> Option<AdminGroupRoleObject> {
        if text == "group.role"@ {
            Some(AdminGroupRoleObject::GroupRole)
        } else {
            None
        }
    }

    open spec fn is_unknown(&self) -> bool {
        self is Unknown
    }

    proof fn lemma_known_literal(value: Self) {
        reveal_strlit("group.role");
        assert("group.role"@.len() == 10);
    }

    proof fn lemma_known_text(text: Seq<char>) {
    }
}

impl AdminGroupRoleObject {
    /// The text the API uses for this value.
    pub fn as_str(&self) -> (r: &str)
        ensures
            r@ == self.literal(),
    {
        match self {
            AdminGroupRoleObject::GroupRole => "group.role",
            AdminGroupRoleObject::Unknown(text) => text.as_str(),
        }
    }

    /// The value a text names; a text no variant uses is kept as `Unknown`.
    pub fn from_text(value: &str) -> (r: AdminGroupRoleObject)
        ensures
            r.literal() == value@,
            r.is_unknown() == (AdminGroupRoleObject::known(value@) is None),
            AdminGroupRoleObject::known(value@) matches Some(k) ==> r == k,
    {
        if str_eq(value, "group.role") {
            AdminGroupRoleObject::GroupRole
        } else {
            AdminGroupRoleObject::Unknown(value.to_string())
        }
    }
}

impl Default for AdminGroupRoleObject {
    fn default() -> (r: AdminGroupRoleObject)
        ensures
            r.literal() == Seq::<char>::empty(),
            r is Unknown,
    {
        AdminGroupRoleObject::Unknown(String::new())
    }
}

/// Organization user-role assignment object type.
#[derive(Clone, Debug, PartialEq, Eq)]
pub enum AdminUserRoleObject {
    UserRole,
    /// A value this library does not know, kept as received.
    Unknown(String),
}

impl Literal for AdminUserRoleObject {
    open spec fn literal(&self) -> Seq<char> {
        match self {
            AdminUserRoleObject::UserRole => "user.role"@,
            AdminUserRoleObject::Unknown(text) => text@,
        }
    }

    fn to_text(&self) -> (r: String) {
        self.as_str().to_string()
    }
}

impl OpenLiteral for AdminUserRoleObject {
    open spec fn known(text: Seq<char>) -> Option<AdminUserRoleObject> {
        if text == "user.role"@ {
            Some(AdminUserRoleObject::UserRole)
        } else {
            None
        }
    }

    open spec fn is_unknown(&self) -> bool {
        self is Unknown
    }

    proof fn lemma_known_literal(value: Self) {
        reveal_strlit("user.role");
        assert("user.role"@.len() == 9);
    }

    proof fn lemma_known_text(text: Seq<char>) {
    }
}

impl AdminUserRoleObject {
    /// The text the API uses for this value.
    pub fn as_str(&self) -> (r: &str)
        ensures
            r@ == self.literal(),
    {
        match self {
            AdminUserRoleObject::UserRole => "user.role",
            AdminUserRoleObject::Unknown(text) => text.as_str(),
        }
    }

    /// The value a text names; a text no variant uses is kept as `Unknown`.
    pub fn from_text(value: &str) -> (r: AdminUserRoleObject)
        ensures
            r.literal() == value@,
            r.is_unknown() == (AdminUserRoleObject::known(value@) is None),
            AdminUserRoleObject::known(value@) matches Some(k) ==> r == k,
    {
        if str_eq(value, "user.role") {
            AdminUserRoleObject::UserRole
        } else {
            AdminUserRoleObject::Unknown(value.to_string())
        }
    }
}

impl Default for AdminUserRoleObject {
    fn default() -> (r: AdminUserRoleObject)
        ensures
            r.literal() == Seq::<char>::empty(),
            r is Unknown,
    {
        AdminUserRoleObject::Unknown(String::new())
    }
}

/// Include fields accepted by organization certificate retrieve.
#[derive(Clone, Debug, PartialEq, Eq)]
pub enum AdminCertificateInclude {
    Content,
    /// A value this library does not know, kept as received.
    Unknown(String),
}

impl Literal for AdminCertificateInclude {
    open spec fn literal(&self) -> Seq<char> {
        match self {
            AdminCertificateInclude::Content => "content"@,
            AdminCertificateInclude::Unknown(text) => text@,
        }
    }

    fn to_text(&self) -> (r: String) {
        self.as_str().to_string()
    }
}

impl OpenLiteral for AdminCertificateInclude {
    open spec fn known(text: Seq<char>) -> Option<AdminCertificateInclude> {
        if text == "content"@ {
            Some(AdminCertificateInclude::Content)
        } else {
            None
        }
    }

    open spec fn is_unknown(&self) -> bool {
        self is Unknown
    }

    proof fn lemma_known_literal(value: Self) {
        reveal_strlit("content");
        assert("content"@.len() == 7);
    }

    proof fn lemma_known_text(text: Seq<char>) {
    }
}

impl AdminCertificateInclude {
    /// The text the API uses for this value.
    pub fn as_str(&self) -> (r: &str)
        ensures
            r@ == self.literal(),
    {
        match self {
            AdminCertificateInclude::Content => "content",
            AdminCertificateInclude::Unknown(text) => text.as_str(),
        }
    }

    /// The value a text names; a text no variant uses is kept as `Unknown`.
    pub fn from_text(value: &str) -> (r: AdminCertificateInclude)
        ensures
            r.literal() == value@,
            r.is_unknown() == (AdminCertificateInclude::known(value@) is None),
            AdminCertificateInclude::known(value@) matches Some(k) ==> r == k,
    {
        if str_eq(value, "content") {
            AdminCertificateInclude::Content
        } else {
            AdminCertificateInclude::Unknown(value.to_string())
        }
    }
}

impl Default for AdminCertificateInclude {
    fn default() -> (r: AdminCertificateInclude)
        ensures
            r.literal() == Seq::<char>::empty(),
            r is Unknown,
    {
        AdminCertificateInclude::Unknown(String::new())
    }
}

/// Certificate object type.
#[derive(Clone, Debug, PartialEq, Eq)]
pub enum AdminCertificateObject {
    Certificate,
    OrganizationCertificate,
    OrganizationProjectCertificate,
    /// A value this library does not know, kept as received.
    Unknown(String),
}

impl Literal for AdminCertificateObject {
    open spec fn literal(&self) -> Seq<char> {
        match self {
            AdminCertificateObject::Certificate => "certificate"@,
            AdminCertificateObject::OrganizationCertificate => "organization.certificate"@,
            AdminCertificateObject::OrganizationProjectCertificate => "organization.project.certificate"@,
            AdminCertificateObject::Unknown(text) => text@,
        }
    }

    fn to_text(&self) -> (r: String) {
        self.as_str().to_string()
    }
}

impl OpenLiteral for AdminCertificateObject {
    open spec fn known(text: Seq<char>) -> Option<AdminCertificateObject> {
        if text == "certificate"@ {
            Some(AdminCertificateObject::Certificate)
        } else if text == "organization.certificate"@ {
            Some(AdminCertificateObject::OrganizationCertificate)
        } else if text == "organization.project.certificate"@ {
            Some(AdminCertificateObject::OrganizationProjectCertificate)
        } else {
            None
        }
    }

    open spec fn is_unknown(&self) -> bool {
        self is Unknown
    }

    proof fn lemma_known_literal(value: Self) {
        reveal_strlit("certificate");
        reveal_strlit("organization.certificate");
        reveal_strlit("organization.project.certificate");
        assert("certificate"@.len() == 11);
        assert("organization.certificate"@.len() == 24);
        assert("organization.project.certificate"@.len() == 32);
    }

    proof fn lemma_known_text(text: Seq<char>) {
    }
}

impl AdminCertificateObject {
    /// The text the API uses for this value.
    pub fn as_str(&self) -> (r: &str)
        ensures
            r@ == self.literal(),
    {
        match self {
            AdminCertificateObject::Certificate => "certificate",
            AdminCertificateObject::OrganizationCertificate => "organization.certificate",
            AdminCertificateObject::OrganizationProjectCertificate => "organization.project.certificate",
            AdminCertificateObject::Unknown(text) => text.as_str(),
        }
    }

    /// The value a text names; a text no variant uses is kept as `Unknown`.
    pub fn from_text(value: &str) -> (r: AdminCertificateObject)
        ensures
            r.literal() == value@,
            r.is_unknown() == (AdminCertificateObject::known(value@) is None),
            AdminCertificateObject::known(value@) matches Some(k) ==> r == k,
    {
        if str_eq(value, "certificate") {
            AdminCertificateObject::Certificate
        } else if str_eq(value, "organization.certificate") {
            AdminCertificateObject::OrganizationCertificate
        } else if str_eq(value, "organization.project.certificate") {
            AdminCertificateObject::OrganizationProjectCertificate
        } else {
            AdminCertificateObject::Unknown(value.to_string())
        }
    }
}

impl Default for AdminCertificateObject {
    fn default() -> (r: AdminCertificateObject)
        ensures
            r.literal() == Seq::<char>::empty(),
            r is Unknown,
    {
        AdminCertificateObject::Unknown(String::new())
    }
}

/// Certificate deletion object type.
#[derive(Clone, Debug, PartialEq, Eq)]
pub enum AdminCertificateDeletedObject {
    CertificateDeleted,
    /// A value this library does not know, kept as received.
    Unknown(String),
}

impl Literal for AdminCertificateDeletedObject {
    open spec fn literal(&self) -> Seq<char> {
        match self {
            AdminCertificateDeletedObject::CertificateDeleted => "certificate.deleted"@,
            AdminCertificateDeletedObject::Unknown(text) => text@,
        }
    }

    fn to_text(&self) -> (r: String) {
        self.as_str().to_string()
    }
}

impl OpenLiteral for AdminCertificateDeletedObject {
    open spec fn known(text: Seq<char>) -> Option<AdminCertificateDeletedObject> {
        if text == "certificate.deleted"@ {
            Some(AdminCertificateDeletedObject::CertificateDeleted)
        } else {
            None
        }
    }

    open spec fn is_unknown(&self) -> bool {
        self is Unknown
    }

    proof fn lemma_known_literal(value: Self) {
        reveal_strlit("certificate.deleted");
        assert("certificate.deleted"@.len() == 19);
    }

    proof fn lemma_known_text(text: Seq<char>) {
    }
}

impl AdminCertificateDeletedObject {
    /// The text the API uses for this value.
    pub fn as_str(&self) -> (r: &str)
        ensures
            r@ == self.literal(),
    {
        match self {
            AdminCertificateDeletedObject::CertificateDeleted => "certificate.deleted",
            AdminCertificateDeletedObject::Unknown(text) => text.as_str(),
        }
    }

    /// The value a text names; a text no variant uses is kept as `Unknown`.
    pub fn from_text(value: &str) -> (r: AdminCertificateDeletedObject)
        ensures
            r.literal() == value@,
            r.is_unknown() == (AdminCertificateDeletedObject::known(value@) is None),
            AdminCertificateDeletedObject::known(value@) matches Some(k) ==> r == k,
    {
        if str_eq(value, "certificate.deleted") {
            AdminCertificateDeletedObject::CertificateDeleted
        } else {
            AdminCertificateDeletedObject::Unknown(value.to_string())
        }
    }
}

impl Default for AdminCertificateDeletedObject {
    fn default() -> (r: AdminCertificateDeletedObject)
        ensures
            r.literal() == Seq::<char>::empty(),
            r is Unknown,
    {
        AdminCertificateDeletedObject::Unknown(String::new())
    }
}

/// Audit-log event type filter.
#[derive(Clone, Debug, PartialEq, Eq)]
pub enum AdminAuditLogEventType {
    ApiKeyCreated,
    ApiKeyUpdated,
    ApiKeyDeleted,
    CertificateCreated,
    CertificateUpdated,
    CertificateDeleted,
    CertificatesActivated,
    CertificatesDeactivated,
    CheckpointPermissionCreated,
    CheckpointPermissionDeleted,
    ExternalKeyRegistered,
    ExternalKeyRemoved,
    GroupCreated,
    GroupUpdated,
    GroupDeleted,
    InviteSent,
    InviteAccepted,
    InviteDeleted,
    IpAllowlistCreated,
    IpAllowlistUpdated,
    IpAllowlistDeleted,
    IpAllowlistConfigActivated,
    IpAllowlistConfigDeactivated,
    LoginSucceeded,
    LoginFailed,
    LogoutSucceeded,
    LogoutFailed,
    OrganizationUpdated,
    ProjectCreated,
    ProjectUpdated,
    ProjectArchived,
    ProjectDeleted,
    RateLimitUpdated,
    RateLimitDeleted,
    ResourceDeleted,
    TunnelCreated,
    TunnelUpdated,
    TunnelDeleted,
    RoleCreated,
    RoleUpdated,
    RoleDeleted,
    RoleAssignmentCreated,
    RoleAssignmentDeleted,
    ScimEnabled,
    ScimDisabled,
    ServiceAccountCreated,
    ServiceAccountUpdated,
    ServiceAccountDeleted,
    UserAdded,
    UserUpdated,
    UserDeleted,
    /// A value this library does not know, kept as received.
    Unknown(String),
}

impl Literal for AdminAuditLogEventType {
    open spec fn literal(&self) -> Seq<char> {
        match self {
            AdminAuditLogEventType::ApiKeyCreated => "api_key.created"@,
            AdminAuditLogEventType::ApiKeyUpdated => "api_key.updated"@,
            AdminAuditLogEventType::ApiKeyDeleted => "api_key.deleted"@,
            AdminAuditLogEventType::CertificateCreated => "certificate.created"@,
            AdminAuditLogEventType::CertificateUpdated => "certificate.updated"@,
            AdminAuditLogEventType::CertificateDeleted => "certificate.deleted"@,
            AdminAuditLogEventType::CertificatesActivated => "certificates.activated"@,
            AdminAuditLogEventType::CertificatesDeactivated => "certificates.deactivated"@,
            AdminAuditLogEventType::CheckpointPermissionCreated => "checkpoint.permission.created"@,
            AdminAuditLogEventType::CheckpointPermissionDeleted => "checkpoint.permission.deleted"@,
            AdminAuditLogEventType::ExternalKeyRegistered => "external_key.registered"@,
            AdminAuditLogEventType::ExternalKeyRemoved => "external_key.removed"@,
            AdminAuditLogEventType::GroupCreated => "group.created"@,
            AdminAuditLogEventType::GroupUpdated => "group.updated"@,
            AdminAuditLogEventType::GroupDeleted => "group.deleted"@,
            AdminAuditLogEventType::InviteSent => "invite.sent"@,
            AdminAuditLogEventType::InviteAccepted => "invite.accepted"@,
            AdminAuditLogEventType::InviteDeleted => "invite.deleted"@,
            AdminAuditLogEventType::IpAllowlistCreated => "ip_allowlist.created"@,
            AdminAuditLogEventType::IpAllowlistUpdated => "ip_allowlist.updated"@,
            AdminAuditLogEventType::IpAllowlistDeleted => "ip_allowlist.deleted"@,
            AdminAuditLogEventType::IpAllowlistConfigActivated => "ip_allowlist.config.activated"@,
            AdminAuditLogEventType::IpAllowlistConfigDeactivated => "ip_allowlist.config.deactivated"@,
            AdminAuditLogEventType::LoginSucceeded => "login.succeeded"@,
            AdminAuditLogEventType::LoginFailed => "login.failed"@,
            AdminAuditLogEventType::LogoutSucceeded => "logout.succeeded"@,
            AdminAuditLogEventType::LogoutFailed => "logout.failed"@,
            AdminAuditLogEventType::OrganizationUpdated => "organization.updated"@,
            AdminAuditLogEventType::ProjectCreated => "project.created"@,
            AdminAuditLogEventType::ProjectUpdated => "project.updated"@,
            AdminAuditLogEventType::ProjectArchived => "project.archived"@,
            AdminAuditLogEventType::ProjectDeleted => "project.deleted"@,
            AdminAuditLogEventType::RateLimitUpdated => "rate_limit.updated"@,
            AdminAuditLogEventType::RateLimitDeleted => "rate_limit.deleted"@,
            AdminAuditLogEventType::ResourceDeleted => "resource.deleted"@,
            AdminAuditLogEventType::TunnelCreated => "tunnel.created"@,
            AdminAuditLogEventType::TunnelUpdated => "tunnel.updated"@,
            AdminAuditLogEventType::TunnelDeleted => "tunnel.deleted"@,
            AdminAuditLogEventType::RoleCreated => "role.created"@,
            AdminAuditLogEventType::RoleUpdated => "role.updated"@,
            AdminAuditLogEventType::RoleDeleted => "role.deleted"@,
            AdminAuditLogEventType::RoleAssignmentCreated => "role.assignment.created"@,
            AdminAuditLogEventType::RoleAssignmentDeleted => "role.assignment.deleted"@,
            AdminAuditLogEventType::ScimEnabled => "scim.enabled"@,
            AdminAuditLogEventType::ScimDisabled => "scim.disabled"@,
            AdminAuditLogEventType::ServiceAccountCreated => "service_account.created"@,
            AdminAuditLogEventType::ServiceAccountUpdated => "service_account.updated"@,
            AdminAuditLogEventType::ServiceAccountDeleted => "service_account.deleted"@,
            AdminAuditLogEventType::UserAdded => "user.added"@,
            AdminAuditLogEventType::UserUpdated => "user.updated"@,
            AdminAuditLogEventType::UserDeleted => "user.deleted"@,
            AdminAuditLogEventType::Unknown(text) => text@,
        }
    }

    fn to_text(&self) -> (r: String) {
        self.as_str().to_string()
    }
}

impl OpenLiteral for AdminAuditLogEventType {
    open spec fn known(text: Seq<char>) -> Option<AdminAuditLogEventType> {
        if text == "api_key.created"@ {
            Some(AdminAuditLogEventType::ApiKeyCreated)
        } else if text == "api_key.updated"@ {
            Some(AdminAuditLogEventType::ApiKeyUpdated)
        } else if text == "api_key.deleted"@ {
            Some(AdminAuditLogEventType::ApiKeyDeleted)
        } else if text == "certificate.created"@ {
            Some(AdminAuditLogEventType::CertificateCreated)
        } else if text == "certificate.updated"@ {
            Some(AdminAuditLogEventType::CertificateUpdated)
        } else if text == "certificate.deleted"@ {
            Some(AdminAuditLogEventType::CertificateDeleted)
        } else if text == "certificates.activated"@ {
            Some(AdminAuditLogEventType::CertificatesActivated)
        } else if text == "certificates.deactivated"@ {
            Some(AdminAuditLogEventType::CertificatesDeactivated)
        } else if text == "checkpoint.permission.created"@ {
            Some(AdminAuditLogEventType::CheckpointPermissionCreated)
        } else if text == "checkpoint.permission.deleted"@ {
            Some(AdminAuditLogEventType::CheckpointPermissionDeleted)
        } else if text == "external_key.registered"@ {
            Some(AdminAuditLogEventType::ExternalKeyRegistered)
        } else if text == "external_key.removed"@ {
            Some(AdminAuditLogEventType::ExternalKeyRemoved)
        } else if text == "group.created"@ {
            Some(AdminAuditLogEventType::GroupCreated)
        } else if text == "group.updated"@ {
            Some(AdminAuditLogEventType::GroupUpdated)
        } else if text == "group.deleted"@ {
            Some(AdminAuditLogEventType::GroupDeleted)
        } else if text == "invite.sent"@ {
            Some(AdminAuditLogEventType::InviteSent)
        } else if text == "invite.accepted"@ {
            Some(AdminAuditLogEventType::InviteAccepted)
        } else if text == "invite.deleted"@ {
            Some(AdminAuditLogEventType::InviteDeleted)
        } else if text == "ip_allowlist.created"@ {
            Some(AdminAuditLogEventType::IpAllowlistCreated)
        } else if text == "ip_allowlist.updated"@ {
            Some(AdminAuditLogEventType::IpAllowlistUpdated)
        } else if text == "ip_allowlist.deleted"@ {
            Some(AdminAuditLogEventType::IpAllowlistDeleted)
        } else if text == "ip_allowlist.config.activated"@ {
            Some(AdminAuditLogEventType::IpAllowlistConfigActivated)
        } else if text == "ip_allowlist.config.deactivated"@ {
            Some(AdminAuditLogEventType::IpAllowlistConfigDeactivated)
        } else if text == "login.succeeded"@ {
            Some(AdminAuditLogEventType::LoginSucceeded)
        } else if text == "login.failed"@ {
            Some(AdminAuditLogEventType::LoginFailed)
        } else if text == "logout.succeeded"@ {
            Some(AdminAuditLogEventType::LogoutSucceeded)
        } else if text == "logout.failed"@ {
            Some(AdminAuditLogEventType::LogoutFailed)
        } else if text == "organization.updated"@ {
            Some(AdminAuditLogEventType::OrganizationUpdated)
        } else if text == "project.created"@ {
            Some(AdminAuditLogEventType::ProjectCreated)
        } else if text == "project.updated"@ {
            Some(AdminAuditLogEventType::ProjectUpdated)
        } else if text == "project.archived"@ {
            Some(AdminAuditLogEventType::ProjectArchived)
        } else if text == "project.deleted"@ {
            Some(AdminAuditLogEventType::ProjectDeleted)
        } else if text == "rate_limit.updated"@ {
            Some(AdminAuditLogEventType::RateLimitUpdated)
        } else if text == "rate_limit.deleted"@ {
            Some(AdminAuditLogEventType::RateLimitDeleted)
        } else if text == "resource.deleted"@ {
            Some(AdminAuditLogEventType::ResourceDeleted)
        } else if text == "tunnel.created"@ {
            Some(AdminAuditLogEventType::TunnelCreated)
        } else if text == "tunnel.updated"@ {
            Some(AdminAuditLogEventType::TunnelUpdated)
        } else if text == "tunnel.deleted"@ {
            Some(AdminAuditLogEventType::TunnelDeleted)
        } else if text == "role.created"@ {
            Some(AdminAuditLogEventType::RoleCreated)
        } else if text == "role.updated"@ {
            Some(AdminAuditLogEventType::RoleUpdated)
        } else if text == "role.deleted"@ {
            Some(AdminAuditLogEventType::RoleDeleted)
        } else if text == "role.assignment.created"@ {
            Some(AdminAuditLogEventType::RoleAssignmentCreated)
        } else if text == "role.assignment.deleted"@ {
            Some(AdminAuditLogEventType::RoleAssignmentDeleted)
        } else if text == "scim.enabled"@ {
            Some(AdminAuditLogEventType::ScimEnabled)
        } else if text == "scim.disabled"@ {
            Some(AdminAuditLogEventType::ScimDisabled)
        } else if text == "service_account.created"@ {
            Some(AdminAuditLogEventType::ServiceAccountCreated)
        } else if text == "service_account.updated"@ {
            Some(AdminAuditLogEventType::ServiceAccountUpdated)
        } else if text == "service_account.deleted"@ {
            Some(AdminAuditLogEventType::ServiceAccountDeleted)
        } else if text == "user.added"@ {
            Some(AdminAuditLogEventType::UserAdded)
        } else if text == "user.updated"@ {
            Some(AdminAuditLogEventType::UserUpdated)
        } else if text == "user.deleted"@ {
            Some(AdminAuditLogEventType::UserDeleted)
        } else {
            None
        }
    }

    open spec fn is_unknown(&self) -> bool {
        self is Unknown
    }

    proof fn lemma_known_literal(value: Self) {
        reveal_strlit("api_key.created");
        reveal_strlit("api_key.updated");
        reveal_strlit("api_key.deleted");
        reveal_strlit("certificate.created");
        reveal_strlit("certificate.updated");
        reveal_strlit("certificate.deleted");
        reveal_strlit("certificates.activated");
        reveal_strlit("certificates.deactivated");
        reveal_strlit("checkpoint.permission.created");
        reveal_strlit("checkpoint.permission.deleted");
        reveal_strlit("external_key.registered");
        reveal_strlit("external_key.removed");
        reveal_strlit("group.created");
        reveal_strlit("group.updated");
        reveal_strlit("group.deleted");
        reveal_strlit("invite.sent");
        reveal_strlit("invite.accepted");
        reveal_strlit("invite.deleted");
        reveal_strlit("ip_allowlist.created");
        reveal_strlit("ip_allowlist.updated");
        reveal_strlit("ip_allowlist.deleted");
        reveal_strlit("ip_allowlist.config.activated");
        reveal_strlit("ip_allowlist.config.deactivated");
        reveal_strlit("login.succeeded");
        reveal_strlit("login.failed");
        reveal_strlit("logout.succeeded");
        reveal_strlit("logout.failed");
        reveal_strlit("organization.updated");
        reveal_strlit("project.created");
        reveal_strlit("project.updated");
        reveal_strlit("project.archived");
        reveal_strlit("project.deleted");
        reveal_strlit("rate_limit.updated");
        reveal_strlit("rate_limit.deleted");
        reveal_strlit("resource.deleted");
        reveal_strlit("tunnel.created");
        reveal_strlit("tunnel.updated");
        reveal_strlit("tunnel.deleted");
        reveal_strlit("role.created");
        reveal_strlit("role.updated");
        reveal_strlit("role.deleted");
        reveal_strlit("role.assignment.created");
        reveal_strlit("role.assignment.deleted");
        reveal_strlit("scim.enabled");
        reveal_strlit("scim.disabled");
        reveal_strlit("service_account.created");
        reveal_strlit("service_account.updated");
        reveal_strlit("service_account.deleted");
        reveal_strlit("user.added");
        reveal_strlit("user.updated");
        reveal_strlit("user.deleted");
        assert("api_key.created"@.len() == 15);
        assert("api_key.updated"@.len() == 15);
        assert("api_key.deleted"@.len() == 15);
        assert("certificate.created"@.len() == 19);
        assert("certificate.updated"@.len() == 19);
        assert("certificate.deleted"@.len() == 19);
        assert("certificates.activated"@.len() == 22);
        assert("certificates.deactivated"@.len() == 24);
        assert("checkpoint.permission.created"@.len() == 29);
        assert("checkpoint.permission.deleted"@.len() == 29);
        assert("external_key.registered"@.len() == 23);
        assert("external_key.removed"@.len() == 20);
        assert("group.created"@.len() == 13);
        assert("group.updated"@.len() == 13);
        assert("group.deleted"@.len() == 13);
        assert("invite.sent"@.len() == 11);
        assert("invite.accepted"@.len() == 15);
        assert("invite.deleted"@.len() == 14);
        assert("ip_allowlist.created"@.len() == 20);
        assert("ip_allowlist.updated"@.len() == 20);
        assert("ip_allowlist.deleted"@.len() == 20);
        assert("ip_allowlist.config.activated"@.len() == 29);
        assert("ip_allowlist.config.deactivated"@.len() == 31);
        assert("login.succeeded"@.len() == 15);
        assert("login.failed"@.len() == 12);
        assert("logout.succeeded"@.len() == 16);
        assert("logout.failed"@.len() == 13);
        assert("organization.updated"@.len() == 20);
        assert("project.created"@.len() == 15);
        assert("project.updated"@.len() == 15);
        assert("project.archived"@.len() == 16);
        assert("project.deleted"@.len() == 15);
        assert("rate_limit.updated"@.len() == 18);
        assert("rate_limit.deleted"@.len() == 18);
        assert("resource.deleted"@.len() == 16);
        assert("tunnel.created"@.len() == 14);
        assert("tunnel.updated"@.len() == 14);
        assert("tunnel.deleted"@.len() == 14);
        assert("role.created"@.len() == 12);
        assert("role.updated"@.len() == 12);
        assert("role.deleted"@.len() == 12);
        assert("role.assignment.created"@.len() == 23);
        assert("role.assignment.deleted"@.len() == 23);
        assert("scim.enabled"@.len() == 12);
        assert("scim.disabled"@.len() == 13);
        assert("service_account.created"@.len() == 23);
        assert("service_account.updated"@.len() == 23);
        assert("service_account.deleted"@.len() == 23);
        assert("user.added"@.len() == 10);
        assert("user.updated"@.len() == 12);
        assert("user.deleted"@.len() == 12);
        assert("api_key.created"@[8] == 'c');
        assert("api_key.updated"@[8] == 'u');
        assert("api_key.deleted"@[8] == 'd');
        assert("api_key.created"@[0] == 'a');
        assert("invite.accepted"@[0] == 'i');
        assert("login.succeeded"@[0] == 'l');
        assert("project.created"@[0] == 'p');
        assert("project.updated"@[0] == 'p');
        assert("project.deleted"@[0] == 'p');
        assert("api_key.updated"@[0] == 'a');
        assert("api_key.deleted"@[0] == 'a');
        assert("certificate.created"@[12] == 'c');
        assert("certificate.updated"@[12] == 'u');
        assert("certificate.deleted"@[12] == 'd');
        assert("checkpoint.permission.created"@[22] == 'c');
        assert("checkpoint.permission.deleted"@[22] == 'd');
        assert("checkpoint.permission.created"@[0] == 'c');
        assert("ip_allowlist.config.activated"@[0] == 'i');
        assert("checkpoint.permission.deleted"@[0] == 'c');
        assert("external_key.registered"@[0] == 'e');
        assert("role.assignment.created"@[0] == 'r');
        assert("role.assignment.deleted"@[0] == 'r');
        assert("service_account.created"@[0] == 's');
        assert("service_account.updated"@[0] == 's');
        assert("service_account.deleted"@[0] == 's');
        assert("external_key.removed"@[0] == 'e');
        assert("ip_allowlist.created"@[0] == 'i');
        assert("ip_allowlist.updated"@[0] == 'i');
        assert("ip_allowlist.deleted"@[0] == 'i');
        assert("organization.updated"@[0] == 'o');
        assert("group.created"@[6] == 'c');
        assert("group.updated"@[6] == 'u');
        assert("group.deleted"@[6] == 'd');
        assert("group.created"@[0] == 'g');
        assert("logout.failed"@[0] == 'l');
        assert("scim.disabled"@[0] == 's');
        assert("group.updated"@[0] == 'g');
        assert("group.deleted"@[0] == 'g');
        assert("invite.deleted"@[0] == 'i');
        assert("tunnel.created"@[0] == 't');
        assert("tunnel.updated"@[0] == 't');
        assert("tunnel.deleted"@[0] == 't');
        assert("ip_allowlist.created"@[13] == 'c');
        assert("ip_allowlist.updated"@[13] == 'u');
        assert("ip_allowlist.deleted"@[13] == 'd');
        assert("login.failed"@[0] == 'l');
        assert("role.created"@[0] == 'r');
        assert("role.updated"@[0] == 'r');
        assert("role.deleted"@[0] == 'r');
        assert("scim.enabled"@[0] == 's');
        assert("user.updated"@[0] == 'u');
        assert("user.deleted"@[0] == 'u');
        assert("logout.succeeded"@[0] == 'l');
        assert("project.archived"@[0] == 'p');
        assert("resource.deleted"@[0] == 'r');
        assert("project.created"@[8] == 'c');
        assert("project.updated"@[8] == 'u');
        assert("project.deleted"@[8] == 'd');
        assert("rate_limit.updated"@[11] == 'u');
        assert("rate_limit.deleted"@[11] == 'd');
        assert("tunnel.created"@[7] == 'c');
        assert("tunnel.updated"@[7] == 'u');
        assert("tunnel.deleted"@[7] == 'd');
        assert("role.created"@[5] == 'c');
        assert("role.updated"@[5] == 'u');
        assert("role.deleted"@[5] == 'd');
        assert("role.assignment.created"@[16] == 'c');
        assert("role.assignment.deleted"@[16] == 'd');
        assert("service_account.created"@[16] == 'c');
        assert("service_account.updated"@[16] == 'u');
        assert("service_account.deleted"@[16] == 'd');
        assert("user.updated"@[5] == 'u');
        assert("user.deleted"@[5] == 'd');
    }

    proof fn lemma_known_text(text: Seq<char>) {
    }
}

impl AdminAuditLogEventType {
    /// The text the API uses for this value.
    pub fn as_str(&self) -> (r: &str)
        ensures
            r@ == self.literal(),
    {
        match self {
            AdminAuditLogEventType::ApiKeyCreated => "api_key.created",
            AdminAuditLogEventType::ApiKeyUpdated => "api_key.updated",
            AdminAuditLogEventType::ApiKeyDeleted => "api_key.deleted",
            AdminAuditLogEventType::CertificateCreated => "certificate.created",
            AdminAuditLogEventType::CertificateUpdated => "certificate.updated",
            AdminAuditLogEventType::CertificateDeleted => "certificate.deleted",
            AdminAuditLogEventType::CertificatesActivated => "certificates.activated",
            AdminAuditLogEventType::CertificatesDeactivated => "certificates.deactivated",
            AdminAuditLogEventType::CheckpointPermissionCreated => "checkpoint.permission.created",
            AdminAuditLogEventType::CheckpointPermissionDeleted => "checkpoint.permission.deleted",
            AdminAuditLogEventType::ExternalKeyRegistered => "external_key.registered",
            AdminAuditLogEventType::ExternalKeyRemoved => "external_key.removed",
            AdminAuditLogEventType::GroupCreated => "group.created",
            AdminAuditLogEventType::GroupUpdated => "group.updated",
            AdminAuditLogEventType::GroupDeleted => "group.deleted",
            AdminAuditLogEventType::InviteSent => "invite.sent",
            AdminAuditLogEventType::InviteAccepted => "invite.accepted",
            AdminAuditLogEventType::InviteDeleted => "invite.deleted",
            AdminAuditLogEventType::IpAllowlistCreated => "ip_allowlist.created",
            AdminAuditLogEventType::IpAllowlistUpdated => "ip_allowlist.updated",
            AdminAuditLogEventType::IpAllowlistDeleted => "ip_allowlist.deleted",
            AdminAuditLogEventType::IpAllowlistConfigActivated => "ip_allowlist.config.activated",
            AdminAuditLogEventType::IpAllowlistConfigDeactivated => "ip_allowlist.config.deactivated",
            AdminAuditLogEventType::LoginSucceeded => "login.succeeded",
            AdminAuditLogEventType::LoginFailed => "login.failed",
            AdminAuditLogEventType::LogoutSucceeded => "logout.succeeded",
            AdminAuditLogEventType::LogoutFailed => "logout.failed",
            AdminAuditLogEventType::OrganizationUpdated => "organization.updated",
            AdminAuditLogEventType::ProjectCreated => "project.created",
            AdminAuditLogEventType::ProjectUpdated => "project.updated",
            AdminAuditLogEventType::ProjectArchived => "project.archived",
            AdminAuditLogEventType::ProjectDeleted => "project.deleted",
            AdminAuditLogEventType::RateLimitUpdated => "rate_limit.updated",
            AdminAuditLogEventType::RateLimitDeleted => "rate_limit.deleted",
            AdminAuditLogEventType::ResourceDeleted => "resource.deleted",
            AdminAuditLogEventType::TunnelCreated => "tunnel.created",
            AdminAuditLogEventType::TunnelUpdated => "tunnel.updated",
            AdminAuditLogEventType::TunnelDeleted => "tunnel.deleted",
            AdminAuditLogEventType::RoleCreated => "role.created",
            AdminAuditLogEventType::RoleUpdated => "role.updated",
            AdminAuditLogEventType::RoleDeleted => "role.deleted",
            AdminAuditLogEventType::RoleAssignmentCreated => "role.assignment.created",
            AdminAuditLogEventType::RoleAssignmentDeleted => "role.assignment.deleted",
            AdminAuditLogEventType::ScimEnabled => "scim.enabled",
            AdminAuditLogEventType::ScimDisabled => "scim.disabled",
            AdminAuditLogEventType::ServiceAccountCreated => "service_account.created",
            AdminAuditLogEventType::ServiceAccountUpdated => "service_account.updated",
            AdminAuditLogEventType::ServiceAccountDeleted => "service_account.deleted",
            AdminAuditLogEventType::UserAdded => "user.added",
            AdminAuditLogEventType::UserUpdated => "user.updated",
            AdminAuditLogEventType::UserDeleted => "user.deleted",
            AdminAuditLogEventType::Unknown(text) => text.as_str(),
        }
    }

    /// The value a text names; a text no variant uses is kept as `Unknown`.
    pub fn from_text(value: &str) -> (r: AdminAuditLogEventType)
        ensures
            r.literal() == value@,
            r.is_unknown() == (AdminAuditLogEventType::known(value@) is None),
            AdminAuditLogEventType::known(value@) matches Some(k) ==> r == k,
    {
        if str_eq(value, "api_key.created") {
            AdminAuditLogEventType::ApiKeyCreated
        } else if str_eq(value, "api_key.updated") {
            AdminAuditLogEventType::ApiKeyUpdated
        } else if str_eq(value, "api_key.deleted") {
            AdminAuditLogEventType::ApiKeyDeleted
        } else if str_eq(value, "certificate.created") {
            AdminAuditLogEventType::CertificateCreated
        } else if str_eq(value, "certificate.updated") {
            AdminAuditLogEventType::CertificateUpdated
        } else if str_eq(value, "certificate.deleted") {
            AdminAuditLogEventType::CertificateDeleted
        } else if str_eq(value, "certificates.activated") {
            AdminAuditLogEventType::CertificatesActivated
        } else if str_eq(value, "certificates.deactivated") {
            AdminAuditLogEventType::CertificatesDeactivated
        } else if str_eq(value, "checkpoint.permission.created") {
            AdminAuditLogEventType::CheckpointPermissionCreated
        } else if str_eq(value, "checkpoint.permission.deleted") {
            AdminAuditLogEventType::CheckpointPermissionDeleted
        } else if str_eq(value, "external_key.registered") {
            AdminAuditLogEventType::ExternalKeyRegistered
        } else if str_eq(value, "external_key.removed") {
            AdminAuditLogEventType::ExternalKeyRemoved
        } else if str_eq(value, "group.created") {
            AdminAuditLogEventType::GroupCreated
        } else if str_eq(value, "group.updated") {
            AdminAuditLogEventType::GroupUpdated
        } else if str_eq(value, "group.deleted") {
            AdminAuditLogEventType::GroupDeleted
        } else if str_eq(value, "invite.sent") {
            AdminAuditLogEventType::InviteSent
        } else if str_eq(value, "invite.accepted") {
            AdminAuditLogEventType::InviteAccepted
        } else if str_eq(value, "invite.deleted") {
            AdminAuditLogEventType::InviteDeleted
        } else if str_eq(value, "ip_allowlist.created") {
            AdminAuditLogEventType::IpAllowlistCreated
        } else if str_eq(value, "ip_allowlist.updated") {
            AdminAuditLogEventType::IpAllowlistUpdated
        } else if str_eq(value, "ip_allowlist.deleted") {
            AdminAuditLogEventType::IpAllowlistDeleted
        } else if str_eq(value, "ip_allowlist.config.activated") {
            AdminAuditLogEventType::IpAllowlistConfigActivated
        } else if str_eq(value, "ip_allowlist.config.deactivated") {
            AdminAuditLogEventType::IpAllowlistConfigDeactivated
        } else if str_eq(value, "login.succeeded") {
            AdminAuditLogEventType::LoginSucceeded
        } else if str_eq(value, "login.failed") {
            AdminAuditLogEventType::LoginFailed
        } else if str_eq(value, "logout.succeeded") {
            AdminAuditLogEventType::LogoutSucceeded
        } else if str_eq(value, "logout.failed") {
            AdminAuditLogEventType::LogoutFailed
        } else if str_eq(value, "organization.updated") {
            AdminAuditLogEventType::OrganizationUpdated
        } else if str_eq(value, "project.created") {
            AdminAuditLogEventType::ProjectCreated
        } else if str_eq(value, "project.updated") {
            AdminAuditLogEventType::ProjectUpdated
        } else if str_eq(value, "project.archived") {
            AdminAuditLogEventType::ProjectArchived
        } else if str_eq(value, "project.deleted") {
            AdminAuditLogEventType::ProjectDeleted
        } else if str_eq(value, "rate_limit.updated") {
            AdminAuditLogEventType::RateLimitUpdated
        } else if str_eq(value, "rate_limit.deleted") {
            AdminAuditLogEventType::RateLimitDeleted
        } else if str_eq(value, "resource.deleted") {
            AdminAuditLogEventType::ResourceDeleted
        } else if str_eq(value, "tunnel.created") {
            AdminAuditLogEventType::TunnelCreated
        } else if str_eq(value, "tunnel.updated") {
            AdminAuditLogEventType::TunnelUpdated
        } else if str_eq(value, "tunnel.deleted") {
            AdminAuditLogEventType::TunnelDeleted
        } else if str_eq(value, "role.created") {
            AdminAuditLogEventType::RoleCreated
        } else if str_eq(value, "role.updated") {
            AdminAuditLogEventType::RoleUpdated
        } else if str_eq(value, "role.deleted") {
            AdminAuditLogEventType::RoleDeleted
        } else if str_eq(value, "role.assignment.created") {
            AdminAuditLogEventType::RoleAssignmentCreated
        } else if str_eq(value, "role.assignment.deleted") {
            AdminAuditLogEventType::RoleAssignmentDeleted
        } else if str_eq(value, "scim.enabled") {
            AdminAuditLogEventType::ScimEnabled
        } else if str_eq(value, "scim.disabled") {
            AdminAuditLogEventType::ScimDisabled
        } else if str_eq(value, "service_account.created") {
            AdminAuditLogEventType::ServiceAccountCreated
        } else if str_eq(value, "service_account.updated") {
            AdminAuditLogEventType::ServiceAccountUpdated
        } else if str_eq(value, "service_account.deleted") {
            AdminAuditLogEventType::ServiceAccountDeleted
        } else if str_eq(value, "user.added") {
            AdminAuditLogEventType::UserAdded
        } else if str_eq(value, "user.updated") {
            AdminAuditLogEventType::UserUpdated
        } else if str_eq(value, "user.deleted") {
            AdminAuditLogEventType::UserDeleted
        } else {
            AdminAuditLogEventType::Unknown(value.to_string())
        }
    }
}

impl Default for AdminAuditLogEventType {
    fn default() -> (r: AdminAuditLogEventType)
        ensures
            r.literal() == Seq::<char>::empty(),
            r is Unknown,
    {
        AdminAuditLogEventType::Unknown(String::new())
    }
}

/// Bucket width accepted by most organization usage endpoints.
#[derive(Clone, Debug, PartialEq, Eq)]
pub enum AdminUsageBucketWidth {
    OneMinute,
    OneHour,
    OneDay,
    /// A value this library does not know, kept as received.
    Unknown(String),
}

impl Literal for AdminUsageBucketWidth {
    open spec fn literal(&self) -> Seq<char> {
        match self {
            AdminUsageBucketWidth::OneMinute => "1m"@,
            AdminUsageBucketWidth::OneHour => "1h"@,
            AdminUsageBucketWidth::OneDay => "1d"@,
            AdminUsageBucketWidth::Unknown(text) => text@,
        }
    }

    fn to_text(&self) -> (r: String) {
        self.as_str().to_string()
    }
}

impl OpenLiteral for AdminUsageBucketWidth {
    open spec fn known(text: Seq<char>) -> Option<AdminUsageBucketWidth> {
        if text == "1m"@ {
            Some(AdminUsageBucketWidth::OneMinute)
        } else if text == "1h"@ {
            Some(AdminUsageBucketWidth::OneHour)
        } else if text == "1d"@ {
            Some(AdminUsageBucketWidth::OneDay)
        } else {
            None
        }
    }

    open spec fn is_unknown(&self) -> bool {
        self is Unknown
    }

    proof fn lemma_known_literal(value: Self) {
        reveal_strlit("1m");
        reveal_strlit("1h");
        reveal_strlit("1d");
        assert("1m"@.len() == 2);
        assert("1h"@.len() == 2);
        assert("1d"@.len() == 2);
        assert("1m"@[1] == 'm');
        assert("1h"@[1] == 'h');
        assert("1d"@[1] == 'd');
    }

    proof fn lemma_known_text(text: Seq<char>) {
    }
}

impl AdminUsageBucketWidth {
    /// The text the API uses for this value.
    pub fn as_str(&self) -> (r: &str)
        ensures
            r@ == self.literal(),
    {
        match self {
            AdminUsageBucketWidth::OneMinute => "1m",
            AdminUsageBucketWidth::OneHour => "1h",
            AdminUsageBucketWidth::OneDay => "1d",
            AdminUsageBucketWidth::Unknown(text) => text.as_str(),
        }
    }

    /// The value a text names; a text no variant uses is kept as `Unknown`.
    pub fn from_text(value: &str) -> (r: AdminUsageBucketWidth)
        ensures
            r.literal() == value@,
            r.is_unknown() == (AdminUsageBucketWidth::known(value@) is None),
            AdminUsageBucketWidth::known(value@) matches Some(k) ==> r == k,
    {
        if str_eq(value, "1m") {
            AdminUsageBucketWidth::OneMinute
        } else if str_eq(value, "1h") {
            AdminUsageBucketWidth::OneHour
        } else if str_eq(value, "1d") {
            AdminUsageBucketWidth::OneDay
        } else {
            AdminUsageBucketWidth::Unknown(value.to_string())
        }
    }
}

impl Default for AdminUsageBucketWidth {
    fn default() -> (r: AdminUsageBucketWidth)
        ensures
            r.literal() == Seq::<char>::empty(),
            r is Unknown,
    {
        AdminUsageBucketWidth::Unknown(String::new())
    }
}

/// Bucket width accepted by the costs usage endpoint.
#[derive(Clone, Debug, PartialEq, Eq)]
pub enum AdminUsageCostsBucketWidth {
    OneDay,
    /// A value this library does not know, kept as received.
    Unknown(String),
}

impl Literal for AdminUsageCostsBucketWidth {
    open spec fn literal(&self) -> Seq<char> {
        match self {
            AdminUsageCostsBucketWidth::OneDay => "1d"@,
            AdminUsageCostsBucketWidth::Unknown(text) => text@,
        }
    }

    fn to_text(&self) -> (r: String) {
        self.as_str().to_string()
    }
}

impl OpenLiteral for AdminUsageCostsBucketWidth {
    open spec fn known(text: Seq<char>) -> Option<AdminUsageCostsBucketWidth> {
        if text == "1d"@ {
            Some(AdminUsageCostsBucketWidth::OneDay)
        } else {
            None
        }
    }

    open spec fn is_unknown(&self) -> bool {
        self is Unknown
    }

    proof fn lemma_known_literal(value: Self) {
        reveal_strlit("1d");
        assert("1d"@.len() == 2);
    }

    proof fn lemma_known_text(text: Seq<char>) {
    }
}

impl AdminUsageCostsBucketWidth {
    /// The text the API uses for this value.
    pub fn as_str(&self) -> (r: &str)
        ensures
            r@ == self.literal(),
    {
        match self {
            AdminUsageCostsBucketWidth::OneDay => "1d",
            AdminUsageCostsBucketWidth::Unknown(text) => text.as_str(),
        }
    }

    /// The value a text names; a text no variant uses is kept as `Unknown`.
    pub fn from_text(value: &str) -> (r: AdminUsageCostsBucketWidth)
        ensures
            r.literal() == value@,
            r.is_unknown() == (AdminUsageCostsBucketWidth::known(value@) is None),
            AdminUsageCostsBucketWidth::known(value@) matches Some(k) ==> r == k,
    {
        if str_eq(value, "1d") {
            AdminUsageCostsBucketWidth::OneDay
        } else {
            AdminUsageCostsBucketWidth::Unknown(value.to_string())
        }
    }
}

impl Default for AdminUsageCostsBucketWidth {
    fn default() -> (r: AdminUsageCostsBucketWidth)
        ensures
            r.literal() == Seq::<char>::empty(),
            r is Unknown,
    {
        AdminUsageCostsBucketWidth::Unknown(String::new())
    }
}

/// Group-by dimensions for audio, embeddings, and moderations usage.
#[derive(Clone, Debug, PartialEq, Eq)]
pub enum AdminUsageStandardGroupBy {
    ProjectId,
    UserId,
    ApiKeyId,
    Model,
    /// A value this library does not know, kept as received.
    Unknown(String),
}

impl Literal for AdminUsageStandardGroupBy {
    open spec fn literal(&self) -> Seq<char> {
        match self {
            AdminUsageStandardGroupBy::ProjectId => "project_id"@,
            AdminUsageStandardGroupBy::UserId => "user_id"@,
            AdminUsageStandardGroupBy::ApiKeyId => "api_key_id"@,
            AdminUsageStandardGroupBy::Model => "model"@,
            AdminUsageStandardGroupBy::Unknown(text) => text@,
        }
    }

    fn to_text(&self) -> (r: String) {
        self.as_str().to_string()
    }
}

impl OpenLiteral for AdminUsageStandardGroupBy {
    open spec fn known(text: Seq<char>) -> Option<AdminUsageStandardGroupBy> {
        if text == "project_id"@ {
            Some(AdminUsageStandardGroupBy::ProjectId)
        } else if text == "user_id"@ {
            Some(AdminUsageStandardGroupBy::UserId)
        } else if text == "api_key_id"@ {
            Some(AdminUsageStandardGroupBy::ApiKeyId)
        } else if text == "model"@ {
            Some(AdminUsageStandardGroupBy::Model)
        } else {
            None
        }
    }

    open spec fn is_unknown(&self) -> bool {
        self is Unknown
    }

    proof fn lemma_known_literal(value: Self) {
        reveal_strlit("project_id");
        reveal_strlit("user_id");
        reveal_strlit("api_key_id");
        reveal_strlit("model");
        assert("project_id"@.len() == 10);
        assert("user_id"@.len() == 7);
        assert("api_key_id"@.len() == 10);
        assert("model"@.len() == 5);
        assert("project_id"@[0] == 'p');
        assert("api_key_id"@[0] == 'a');
    }

    proof fn lemma_known_text(text: Seq<char>) {
    }
}

impl AdminUsageStandardGroupBy {
    /// The text the API uses for this value.
    pub fn as_str(&self) -> (r: &str)
        ensures
            r@ == self.literal(),
    {
        match self {
            AdminUsageStandardGroupBy::ProjectId => "project_id",
            AdminUsageStandardGroupBy::UserId => "user_id",
            AdminUsageStandardGroupBy::ApiKeyId => "api_key_id",
            AdminUsageStandardGroupBy::Model => "model",
            AdminUsageStandardGroupBy::Unknown(text) => text.as_str(),
        }
    }

    /// The value a text names; a text no variant uses is kept as `Unknown`.
    pub fn from_text(value: &str) -> (r: AdminUsageStandardGroupBy)
        ensures
            r.literal() == value@,
            r.is_unknown() == (AdminUsageStandardGroupBy::known(value@) is None),
            AdminUsageStandardGroupBy::known(value@) matches Some(k) ==> r == k,
    {
        if str_eq(value, "project_id") {
            AdminUsageStandardGroupBy::ProjectId
        } else if str_eq(value, "user_id") {
            AdminUsageStandardGroupBy::UserId
        } else if str_eq(value, "api_key_id") {
            AdminUsageStandardGroupBy::ApiKeyId
        } else if str_eq(value, "model") {
            AdminUsageStandardGroupBy::Model
        } else {
            AdminUsageStandardGroupBy::Unknown(value.to_string())
        }
    }
}

impl Default for AdminUsageStandardGroupBy {
    fn default() -> (r: AdminUsageStandardGroupBy)
        ensures
            r.literal() == Seq::<char>::empty(),
            r is Unknown,
    {
        AdminUsageStandardGroupBy::Unknown(String::new())
    }
}

/// Group-by dimensions for code-interpreter session and vector-store usage.
#[derive(Clone, Debug, PartialEq, Eq)]
pub enum AdminUsageProjectGroupBy {
    ProjectId,
    /// A value this library does not know, kept as received.
    Unknown(String),
}

impl Literal for AdminUsageProjectGroupBy {
    open spec fn literal(&self) -> Seq<char> {
        match self {
            AdminUsageProjectGroupBy::ProjectId => "project_id"@,
            AdminUsageProjectGroupBy::Unknown(text) => text@,
        }
    }

    fn to_text(&self) -> (r: String) {
        self.as_str().to_string()
    }
}

impl OpenLiteral for AdminUsageProjectGroupBy {
    open spec fn known(text: Seq<char>) -> Option<AdminUsageProjectGroupBy> {
        if text == "project_id"@ {
            Some(AdminUsageProjectGroupBy::ProjectId)
        } else {
            None
        }
    }

    open spec fn is_unknown(&self) -> bool {
        self is Unknown
    }

    proof fn lemma_known_literal(value: Self) {
        reveal_strlit("project_id");
        assert("project_id"@.len() == 10);
    }

    proof fn lemma_known_text(text: Seq<char>) {
    }
}

impl AdminUsageProjectGroupBy {
    /// The text the API uses for this value.
    pub fn as_str(&self) -> (r: &str)
        ensures
            r@ == self.literal(),
    {
        match self {
            AdminUsageProjectGroupBy::ProjectId => "project_id",
            AdminUsageProjectGroupBy::Unknown(text) => text.as_str(),
        }
    }

    /// The value a text names; a text no variant uses is kept as `Unknown`.
    pub fn from_text(value: &str) -> (r: AdminUsageProjectGroupBy)
        ensures
            r.literal() == value@,
            r.is_unknown() == (AdminUsageProjectGroupBy::known(value@) is None),
            AdminUsageProjectGroupBy::known(value@) matches Some(k) ==> r == k,
    {
        if str_eq(value, "project_id") {
            AdminUsageProjectGroupBy::ProjectId
        } else {
            AdminUsageProjectGroupBy::Unknown(value.to_string())
        }
    }
}

impl Default for AdminUsageProjectGroupBy {
    fn default() -> (r: AdminUsageProjectGroupBy)
        ensures
            r.literal() == Seq::<char>::empty(),
            r is Unknown,
    {
        AdminUsageProjectGroupBy::Unknown(String::new())
    }
}

/// Group-by dimensions for completions usage.
#[derive(Clone, Debug, PartialEq, Eq)]
pub enum AdminUsageCompletionsGroupBy {
    ProjectId,
    UserId,
    ApiKeyId,
    Model,
    Batch,
    ServiceTier,
    /// A value this library does not know, kept as received.
    Unknown(String),
}

impl Literal for AdminUsageCompletionsGroupBy {
    open spec fn literal(&self) -> Seq<char> {
        match self {
            AdminUsageCompletionsGroupBy::ProjectId => "project_id"@,
            AdminUsageCompletionsGroupBy::UserId => "user_id"@,
            AdminUsageCompletionsGroupBy::ApiKeyId => "api_key_id"@,
            AdminUsageCompletionsGroupBy::Model => "model"@,
            AdminUsageCompletionsGroupBy::Batch => "batch"@,
            AdminUsageCompletionsGroupBy::ServiceTier => "service_tier"@,
            AdminUsageCompletionsGroupBy::Unknown(text) => text@,
        }
    }

    fn to_text(&self) -> (r: String) {
        self.as_str().to_string()
    }
}

impl OpenLiteral for AdminUsageCompletionsGroupBy {
    open spec fn known(text: Seq<char>) -> Option<AdminUsageCompletionsGroupBy> {
        if text == "project_id"@ {
            Some(AdminUsageCompletionsGroupBy::ProjectId)
        } else if text == "user_id"@ {
            Some(AdminUsageCompletionsGroupBy::UserId)
        } else if text == "api_key_id"@ {
            Some(AdminUsageCompletionsGroupBy::ApiKeyId)
        } else if text == "model"@ {
            Some(AdminUsageCompletionsGroupBy::Model)
        } else if text == "batch"@ {
            Some(AdminUsageCompletionsGroupBy::Batch)
        } else if text == "service_tier"@ {
            Some(AdminUsageCompletionsGroupBy::ServiceTier)
        } else {
            None
        }
    }

    open spec fn is_unknown(&self) -> bool {
        self is Unknown
    }

    proof fn lemma_known_literal(value: Self) {
        reveal_strlit("project_id");
        reveal_strlit("user_id");
        reveal_strlit("api_key_id");
        reveal_strlit("model");
        reveal_strlit("batch");
        reveal_strlit("service_tier");
        assert("project_id"@.len() == 10);
        assert("user_id"@.len() == 7);
        assert("api_key_id"@.len() == 10);
        assert("model"@.len() == 5);
        assert("batch"@.len() == 5);
        assert("service_tier"@.len() == 12);
        assert("project_id"@[0] == 'p');
        assert("api_key_id"@[0] == 'a');
        assert("model"@[0] == 'm');
        assert("batch"@[0] == 'b');
    }

    proof fn lemma_known_text(text: Seq<char>) {
    }
}

impl AdminUsageCompletionsGroupBy {
    /// The text the API uses for this value.
    pub fn as_str(&self) -> (r: &str)
        ensures
            r@ == self.literal(),
    {
        match self {
            AdminUsageCompletionsGroupBy::ProjectId => "project_id",
            AdminUsageCompletionsGroupBy::UserId => "user_id",
            AdminUsageCompletionsGroupBy::ApiKeyId => "api_key_id",
            AdminUsageCompletionsGroupBy::Model => "model",
            AdminUsageCompletionsGroupBy::Batch => "batch",
            AdminUsageCompletionsGroupBy::ServiceTier => "service_tier",
            AdminUsageCompletionsGroupBy::Unknown(text) => text.as_str(),
        }
    }

    /// The value a text names; a text no variant uses is kept as `Unknown`.
    pub fn from_text(value: &str) -> (r: AdminUsageCompletionsGroupBy)
        ensures
            r.literal() == value@,
            r.is_unknown() == (AdminUsageCompletionsGroupBy::known(value@) is None),
            AdminUsageCompletionsGroupBy::known(value@) matches Some(k) ==> r == k,
    {
        if str_eq(value, "project_id") {
            AdminUsageCompletionsGroupBy::ProjectId
        } else if str_eq(value, "user_id") {
            AdminUsageCompletionsGroupBy::UserId
        } else if str_eq(value, "api_key_id") {
            AdminUsageCompletionsGroupBy::ApiKeyId
        } else if str_eq(value, "model") {
            AdminUsageCompletionsGroupBy::Model
        } else if str_eq(value, "batch") {
            AdminUsageCompletionsGroupBy::Batch
        } else if str_eq(value, "service_tier") {
            AdminUsageCompletionsGroupBy::ServiceTier
        } else {
            AdminUsageCompletionsGroupBy::Unknown(value.to_string())
        }
    }
}

impl Default for AdminUsageCompletionsGroupBy {
    fn default() -> (r: AdminUsageCompletionsGroupBy)
        ensures
            r.literal() == Seq::<char>::empty(),
            r is Unknown,
    {
        AdminUsageCompletionsGroupBy::Unknown(String::new())
    }
}

/// Group-by dimensions for costs usage.
#[derive(Clone, Debug, PartialEq, Eq)]
pub enum AdminUsageCostsGroupBy {
    ProjectId,
    LineItem,
    ApiKeyId,
    /// A value this library does not know, kept as received.
    Unknown(String),
}

impl Literal for AdminUsageCostsGroupBy {
    open spec fn literal(&self) -> Seq<char> {
        match self {
            AdminUsageCostsGroupBy::ProjectId => "project_id"@,
            AdminUsageCostsGroupBy::LineItem => "line_item"@,
            AdminUsageCostsGroupBy::ApiKeyId => "api_key_id"@,
            AdminUsageCostsGroupBy::Unknown(text) => text@,
        }
    }

    fn to_text(&self) -> (r: String) {
        self.as_str().to_string()
    }
}

impl OpenLiteral for AdminUsageCostsGroupBy {
    open spec fn known(text: Seq<char>) -> Option<AdminUsageCostsGroupBy> {
        if text == "project_id"@ {
            Some(AdminUsageCostsGroupBy::ProjectId)
        } else if text == "line_item"@ {
            Some(AdminUsageCostsGroupBy::LineItem)
        } else if text == "api_key_id"@ {
            Some(AdminUsageCostsGroupBy::ApiKeyId)
        } else {
            None
        }
    }

    open spec fn is_unknown(&self) -> bool {
        self is Unknown
    }

    proof fn lemma_known_literal(value: Self) {
        reveal_strlit("project_id");
        reveal_strlit("line_item");
        reveal_strlit("api_key_id");
        assert("project_id"@.len() == 10);
        assert("line_item"@.len() == 9);
        assert("api_key_id"@.len() == 10);
        assert("project_id"@[0] == 'p');
        assert("api_key_id"@[0] == 'a');
    }

    proof fn lemma_known_text(text: Seq<char>) {
    }
}

impl AdminUsageCostsGroupBy {
    /// The text the API uses for this value.
    pub fn as_str(&self) -> (r: &str)
        ensures
            r@ == self.literal(),
    {
        match self {
            AdminUsageCostsGroupBy::ProjectId => "project_id",
            AdminUsageCostsGroupBy::LineItem => "line_item",
            AdminUsageCostsGroupBy::ApiKeyId => "api_key_id",
            AdminUsageCostsGroupBy::Unknown(text) => text.as_str(),
        }
    }

    /// The value a text names; a text no variant uses is kept as `Unknown`.
    pub fn from_text(value: &str) -> (r: AdminUsageCostsGroupBy)
        ensures
            r.literal() == value@,
            r.is_unknown() == (AdminUsageCostsGroupBy::known(value@) is None),
            AdminUsageCostsGroupBy::known(value@) matches Some(k) ==> r == k,
    {
        if str_eq(value, "project_id") {
            AdminUsageCostsGroupBy::ProjectId
        } else if str_eq(value, "line_item") {
            AdminUsageCostsGroupBy::LineItem
        } else if str_eq(value, "api_key_id") {
            AdminUsageCostsGroupBy::ApiKeyId
        } else {
            AdminUsageCostsGroupBy::Unknown(value.to_string())
        }
    }
}

impl Default for AdminUsageCostsGroupBy {
    fn default() -> (r: AdminUsageCostsGroupBy)
        ensures
            r.literal() == Seq::<char>::empty(),
            r is Unknown,
    {
        AdminUsageCostsGroupBy::Unknown(String::new())
    }
}

/// Group-by dimensions for file-search-call usage.
#[derive(Clone, Debug, PartialEq, Eq)]
pub enum AdminUsageFileSearchCallsGroupBy {
    ProjectId,
    UserId,
    ApiKeyId,
    VectorStoreId,
    /// A value this library does not know, kept as received.
    Unknown(String),
}

impl Literal for AdminUsageFileSearchCallsGroupBy {
    open spec fn literal(&self) -> Seq<char> {
        match self {
            AdminUsageFileSearchCallsGroupBy::ProjectId => "project_id"@,
            AdminUsageFileSearchCallsGroupBy::UserId => "user_id"@,
            AdminUsageFileSearchCallsGroupBy::ApiKeyId => "api_key_id"@,
            AdminUsageFileSearchCallsGroupBy::VectorStoreId => "vector_store_id"@,
            AdminUsageFileSearchCallsGroupBy::Unknown(text) => text@,
        }
    }

    fn to_text(&self) -> (r: String) {
        self.as_str().to_string()
    }
}

impl OpenLiteral for AdminUsageFileSearchCallsGroupBy {
    open spec fn known(text: Seq<char>) -> Option<AdminUsageFileSearchCallsGroupBy> {
        if text == "project_id"@ {
            Some(AdminUsageFileSearchCallsGroupBy::ProjectId)
        } else if text == "user_id"@ {
            Some(AdminUsageFileSearchCallsGroupBy::UserId)
        } else if text == "api_key_id"@ {
            Some(AdminUsageFileSearchCallsGroupBy::ApiKeyId)
        } else if text == "vector_store_id"@ {
            Some(AdminUsageFileSearchCallsGroupBy::VectorStoreId)
        } else {
            None
        }
    }

    open spec fn is_unknown(&self) -> bool {
        self is Unknown
    }

    proof fn lemma_known_literal(value: Self) {
        reveal_strlit("project_id");
        reveal_strlit("user_id");
        reveal_strlit("api_key_id");
        reveal_strlit("vector_store_id");
        assert("project_id"@.len() == 10);
        assert("user_id"@.len() == 7);
        assert("api_key_id"@.len() == 10);
        assert("vector_store_id"@.len() == 15);
        assert("project_id"@[0] == 'p');
        assert("api_key_id"@[0] == 'a');
    }

    proof fn lemma_known_text(text: Seq<char>) {
    }
}

impl AdminUsageFileSearchCallsGroupBy {
    /// The text the API uses for this value.
    pub fn as_str(&self) -> (r: &str)
        ensures
            r@ == self.literal(),
    {
        match self {
            AdminUsageFileSearchCallsGroupBy::ProjectId => "project_id",
            AdminUsageFileSearchCallsGroupBy::UserId => "user_id",
            AdminUsageFileSearchCallsGroupBy::ApiKeyId => "api_key_id",
            AdminUsageFileSearchCallsGroupBy::VectorStoreId => "vector_store_id",
            AdminUsageFileSearchCallsGroupBy::Unknown(text) => text.as_str(),
        }
    }

    /// The value a text names; a text no variant uses is kept as `Unknown`.
    pub fn from_text(value: &str) -> (r: AdminUsageFileSearchCallsGroupBy)
        ensures
            r.literal() == value@,
            r.is_unknown() == (AdminUsageFileSearchCallsGroupBy::known(value@) is None),
            AdminUsageFileSearchCallsGroupBy::known(value@) matches Some(k) ==> r == k,
    {
        if str_eq(value, "project_id") {
            AdminUsageFileSearchCallsGroupBy::ProjectId
        } else if str_eq(value, "user_id") {
            AdminUsageFileSearchCallsGroupBy::UserId
        } else if str_eq(value, "api_key_id") {
            AdminUsageFileSearchCallsGroupBy::ApiKeyId
        } else if str_eq(value, "vector_store_id") {
            AdminUsageFileSearchCallsGroupBy::VectorStoreId
        } else {
            AdminUsageFileSearchCallsGroupBy::Unknown(value.to_string())
        }
    }
}

impl Default for AdminUsageFileSearchCallsGroupBy {
    fn default() -> (r: AdminUsageFileSearchCallsGroupBy)
        ensures
            r.literal() == Seq::<char>::empty(),
            r is Unknown,
    {
        AdminUsageFileSearchCallsGroupBy::Unknown(String::new())
    }
}

/// Group-by dimensions for images usage.
#[derive(Clone, Debug, PartialEq, Eq)]
pub enum AdminUsageImagesGroupBy {
    ProjectId,
    UserId,
    ApiKeyId,
    Model,
    Size,
    Source,
    /// A value this library does not know, kept as received.
    Unknown(String),
}

impl Literal for AdminUsageImagesGroupBy {
    open spec fn literal(&self) -> Seq<char> {
        match self {
            AdminUsageImagesGroupBy::ProjectId => "project_id"@,
            AdminUsageImagesGroupBy::UserId => "user_id"@,
            AdminUsageImagesGroupBy::ApiKeyId => "api_key_id"@,
            AdminUsageImagesGroupBy::Model => "model"@,
            AdminUsageImagesGroupBy::Size => "size"@,
            AdminUsageImagesGroupBy::Source => "source"@,
            AdminUsageImagesGroupBy::Unknown(text) => text@,
        }
    }

    fn to_text(&self) -> (r: String) {
        self.as_str().to_string()
    }
}

impl OpenLiteral for AdminUsageImagesGroupBy {
    open spec fn known(text: Seq<char>) -> Option<AdminUsageImagesGroupBy> {
        if text == "project_id"@ {
            Some(AdminUsageImagesGroupBy::ProjectId)
        } else if text == "user_id"@ {
            Some(AdminUsageImagesGroupBy::UserId)
        } else if text == "api_key_id"@ {
            Some(AdminUsageImagesGroupBy::ApiKeyId)
        } else if text == "model"@ {
            Some(AdminUsageImagesGroupBy::Model)
        } else if text == "size"@ {
            Some(AdminUsageImagesGroupBy::Size)
        } else if text == "source"@ {
            Some(AdminUsageImagesGroupBy::Source)
        } else {
            None
        }
    }

    open spec fn is_unknown(&self) -> bool {
        self is Unknown
    }

    proof fn lemma_known_literal(value: Self) {
        reveal_strlit("project_id");
        reveal_strlit("user_id");
        reveal_strlit("api_key_id");
        reveal_strlit("model");
        reveal_strlit("size");
        reveal_strlit("source");
        assert("project_id"@.len() == 10);
        assert("user_id"@.len() == 7);
        assert("api_key_id"@.len() == 10);
        assert("model"@.len() == 5);
        assert("size"@.len() == 4);
        assert("source"@.len() == 6);
        assert("project_id"@[0] == 'p');
        assert("api_key_id"@[0] == 'a');
    }

    proof fn lemma_known_text(text: Seq<char>) {
    }
}

impl AdminUsageImagesGroupBy {
    /// The text the API uses for this value.
    pub fn as_str(&self) -> (r: &str)
        ensures
            r@ == self.literal(),
    {
        match self {
            AdminUsageImagesGroupBy::ProjectId => "project_id",
            AdminUsageImagesGroupBy::UserId => "user_id",
            AdminUsageImagesGroupBy::ApiKeyId => "api_key_id",
            AdminUsageImagesGroupBy::Model => "model",
            AdminUsageImagesGroupBy::Size => "size",
            AdminUsageImagesGroupBy::Source => "source",
            AdminUsageImagesGroupBy::Unknown(text) => text.as_str(),
        }
    }

    /// The value a text names; a text no variant uses is kept as `Unknown`.
    pub fn from_text(value: &str) -> (r: AdminUsageImagesGroupBy)
        ensures
            r.literal() == value@,
            r.is_unknown() == (AdminUsageImagesGroupBy::known(value@) is None),
            AdminUsageImagesGroupBy::known(value@) matches Some(k) ==> r == k,
    {
        if str_eq(value, "project_id") {
            AdminUsageImagesGroupBy::ProjectId
        } else if str_eq(value, "user_id") {
            AdminUsageImagesGroupBy::UserId
        } else if str_eq(value, "api_key_id") {
            AdminUsageImagesGroupBy::ApiKeyId
        } else if str_eq(value, "model") {
            AdminUsageImagesGroupBy::Model
        } else if str_eq(value, "size") {
            AdminUsageImagesGroupBy::Size
        } else if str_eq(value, "source") {
            AdminUsageImagesGroupBy::Source
        } else {
            AdminUsageImagesGroupBy::Unknown(value.to_string())
        }
    }
}

impl Default for AdminUsageImagesGroupBy {
    fn default() -> (r: AdminUsageImagesGroupBy)
        ensures
            r.literal() == Seq::<char>::empty(),
            r is Unknown,
    {
        AdminUsageImagesGroupBy::Unknown(String::new())
    }
}

/// Image size filters for images usage.
#[derive(Clone, Debug, PartialEq, Eq)]
pub enum AdminUsageImagesSize {
    Size256x256,
    Size512x512,
    Size1024x1024,
    Size1792x1792,
    Size1024x1792,
    /// A value this library does not know, kept as received.
    Unknown(String),
}

impl Literal for AdminUsageImagesSize {
    open spec fn literal(&self) -> Seq<char> {
        match self {
            AdminUsageImagesSize::Size256x256 => "256x256"@,
            AdminUsageImagesSize::Size512x512 => "512x512"@,
            AdminUsageImagesSize::Size1024x1024 => "1024x1024"@,
            AdminUsageImagesSize::Size1792x1792 => "1792x1792"@,
            AdminUsageImagesSize::Size1024x1792 => "1024x1792"@,
            AdminUsageImagesSize::Unknown(text) => text@,
        }
    }

    fn to_text(&self) -> (r: String) {
        self.as_str().to_string()
    }
}

impl OpenLiteral for AdminUsageImagesSize {
    open spec fn known(text: Seq<char>) -> Option<AdminUsageImagesSize> {
        if text == "256x256"@ {
            Some(AdminUsageImagesSize::Size256x256)
        } else if text == "512x512"@ {
            Some(AdminUsageImagesSize::Size512x512)
        } else if text == "1024x1024"@ {
            Some(AdminUsageImagesSize::Size1024x1024)
        } else if text == "1792x1792"@ {
            Some(AdminUsageImagesSize::Size1792x1792)
        } else if text == "1024x1792"@ {
            Some(AdminUsageImagesSize::Size1024x1792)
        } else {
            None
        }
    }

    open spec fn is_unknown(&self) -> bool {
        self is Unknown
    }

    proof fn lemma_known_literal(value: Self) {
        reveal_strlit("256x256");
        reveal_strlit("512x512");
        reveal_strlit("1024x1024");
        reveal_strlit("1792x1792");
        reveal_strlit("1024x1792");
        assert("256x256"@.len() == 7);
        assert("512x512"@.len() == 7);
        assert("1024x1024"@.len() == 9);
        assert("1792x1792"@.len() == 9);
        assert("1024x1792"@.len() == 9);
        assert("256x256"@[0] == '2');
        assert("512x512"@[0] == '5');
        assert("1024x1024"@[1] == '0');
        assert("1792x1792"@[1] == '7');
        assert("1024x1024"@[6] == '0');
        assert("1024x1792"@[6] == '7');
        assert("1024x1792"@[1] == '0');
    }

    proof fn lemma_known_text(text: Seq<char>) {
    }
}

impl AdminUsageImagesSize {
    /// The text the API uses for this value.
    pub fn as_str(&self) -> (r: &str)
        ensures
            r@ == self.literal(),
    {
        match self {
            AdminUsageImagesSize::Size256x256 => "256x256",
            AdminUsageImagesSize::Size512x512 => "512x512",
            AdminUsageImagesSize::Size1024x1024 => "1024x1024",
            AdminUsageImagesSize::Size1792x1792 => "1792x1792",
            AdminUsageImagesSize::Size1024x1792 => "1024x1792",
            AdminUsageImagesSize::Unknown(text) => text.as_str(),
        }
    }

    /// The value a text names; a text no variant uses is kept as `Unknown`.
    pub fn from_text(value: &str) -> (r: AdminUsageImagesSize)
        ensures
            r.literal() == value@,
            r.is_unknown() == (AdminUsageImagesSize::known(value@) is None),
            AdminUsageImagesSize::known(value@) matches Some(k) ==> r == k,
    {
        if str_eq(value, "256x256") {
            AdminUsageImagesSize::Size256x256
        } else if str_eq(value, "512x512") {
            AdminUsageImagesSize::Size512x512
        } else if str_eq(value, "1024x1024") {
            AdminUsageImagesSize::Size1024x1024
        } else if str_eq(value, "1792x1792") {
            AdminUsageImagesSize::Size1792x1792
        } else if str_eq(value, "1024x1792") {
            AdminUsageImagesSize::Size1024x1792
        } else {
            AdminUsageImagesSize::Unknown(value.to_string())
        }
    }
}

impl Default for AdminUsageImagesSize {
    fn default() -> (r: AdminUsageImagesSize)
        ensures
            r.literal() == Seq::<char>::empty(),
            r is Unknown,
    {
        AdminUsageImagesSize::Unknown(String::new())
    }
}

/// Image source filters for images usage.
#[derive(Clone, Debug, PartialEq, Eq)]
pub enum AdminUsageImagesSource {
    Generation,
    Edit,
    Variation,
    /// A value this library does not know, kept as received.
    Unknown(String),
}

impl Literal for AdminUsageImagesSource {
    open spec fn literal(&self) -> Seq<char> {
        match self {
            AdminUsageImagesSource::Generation => "image.generation"@,
            AdminUsageImagesSource::Edit => "image.edit"@,
            AdminUsageImagesSource::Variation => "image.variation"@,
            AdminUsageImagesSource::Unknown(text) => text@,
        }
    }

    fn to_text(&self) -> (r: String) {
        self.as_str().to_string()
    }
}

impl OpenLiteral for AdminUsageImagesSource {
    open spec fn known(text: Seq<char>) -> Option<AdminUsageImagesSource> {
        if text == "image.generation"@ {
            Some(AdminUsageImagesSource::Generation)
        } else if text == "image.edit"@ {
            Some(AdminUsageImagesSource::Edit)
        } else if text == "image.variation"@ {
            Some(AdminUsageImagesSource::Variation)
        } else {
            None
        }
    }

    open spec fn is_unknown(&self) -> bool {
        self is Unknown
    }

    proof fn lemma_known_literal(value: Self) {
        reveal_strlit("image.generation");
        reveal_strlit("image.edit");
        reveal_strlit("image.variation");
        assert("image.generation"@.len() == 16);
        assert("image.edit"@.len() == 10);
        assert("image.variation"@.len() == 15);
    }

    proof fn lemma_known_text(text: Seq<char>) {
    }
}

impl AdminUsageImagesSource {
    /// The text the API uses for this value.
    pub fn as_str(&self) -> (r: &str)
        ensures
            r@ == self.literal(),
    {
        match self {
            AdminUsageImagesSource::Generation => "image.generation",
            AdminUsageImagesSource::Edit => "image.edit",
            AdminUsageImagesSource::Variation => "image.variation",
            AdminUsageImagesSource::Unknown(text) => text.as_str(),
        }
    }

    /// The value a text names; a text no variant uses is kept as `Unknown`.
    pub fn from_text(value: &str) -> (r: AdminUsageImagesSource)
        ensures
            r.literal() == value@,
            r.is_unknown() == (AdminUsageImagesSource::known(value@) is None),
            AdminUsageImagesSource::known(value@) matches Some(k) ==> r == k,
    {
        if str_eq(value, "image.generation") {
            AdminUsageImagesSource::Generation
        } else if str_eq(value, "image.edit") {
            AdminUsageImagesSource::Edit
        } else if str_eq(value, "image.variation") {
            AdminUsageImagesSource::Variation
        } else {
            AdminUsageImagesSource::Unknown(value.to_string())
        }
    }
}

impl Default for AdminUsageImagesSource {
    fn default() -> (r: AdminUsageImagesSource)
        ensures
            r.literal() == Seq::<char>::empty(),
            r is Unknown,
    {
        AdminUsageImagesSource::Unknown(String::new())
    }
}

/// Group-by dimensions for web-search-call usage.
#[derive(Clone, Debug, PartialEq, Eq)]
pub enum AdminUsageWebSearchCallsGroupBy {
    ProjectId,
    UserId,
    ApiKeyId,
    Model,
    ContextLevel,
    /// A value this library does not know, kept as received.
    Unknown(String),
}

impl Literal for AdminUsageWebSearchCallsGroupBy {
    open spec fn literal(&self) -> Seq<char> {
        match self {
            AdminUsageWebSearchCallsGroupBy::ProjectId => "project_id"@,
            AdminUsageWebSearchCallsGroupBy::UserId => "user_id"@,
            AdminUsageWebSearchCallsGroupBy::ApiKeyId => "api_key_id"@,
            AdminUsageWebSearchCallsGroupBy::Model => "model"@,
            AdminUsageWebSearchCallsGroupBy::ContextLevel => "context_level"@,
            AdminUsageWebSearchCallsGroupBy::Unknown(text) => text@,
        }
    }

    fn to_text(&self) -> (r: String) {
        self.as_str().to_string()
    }
}

impl OpenLiteral for AdminUsageWebSearchCallsGroupBy {
    open spec fn known(text: Seq<char>) -> Option<AdminUsageWebSearchCallsGroupBy> {
        if text == "project_id"@ {
            Some(AdminUsageWebSearchCallsGroupBy::ProjectId)
        } else if text == "user_id"@ {
            Some(AdminUsageWebSearchCallsGroupBy::UserId)
        } else if text == "api_key_id"@ {
            Some(AdminUsageWebSearchCallsGroupBy::ApiKeyId)
        } else if text == "model"@ {
            Some(AdminUsageWebSearchCallsGroupBy::Model)
        } else if text == "context_level"@ {
            Some(AdminUsageWebSearchCallsGroupBy::ContextLevel)
        } else {
            None
        }
    }

    open spec fn is_unknown(&self) -> bool {
        self is Unknown
    }

    proof fn lemma_known_literal(value: Self) {
        reveal_strlit("project_id");
        reveal_strlit("user_id");
        reveal_strlit("api_key_id");
        reveal_strlit("model");
        reveal_strlit("context_level");
        assert("project_id"@.len() == 10);
        assert("user_id"@.len() == 7);
        assert("api_key_id"@.len() == 10);
        assert("model"@.len() == 5);
        assert("context_level"@.len() == 13);
        assert("project_id"@[0] == 'p');
        assert("api_key_id"@[0] == 'a');
    }

    proof fn lemma_known_text(text: Seq<char>) {
    }
}

impl AdminUsageWebSearchCallsGroupBy {
    /// The text the API uses for this value.
    pub fn as_str(&self) -> (r: &str)
        ensures
            r@ == self.literal(),
    {
        match self {
            AdminUsageWebSearchCallsGroupBy::ProjectId => "project_id",
            AdminUsageWebSearchCallsGroupBy::UserId => "user_id",
            AdminUsageWebSearchCallsGroupBy::ApiKeyId => "api_key_id",
            AdminUsageWebSearchCallsGroupBy::Model => "model",
            AdminUsageWebSearchCallsGroupBy::ContextLevel => "context_level",
            AdminUsageWebSearchCallsGroupBy::Unknown(text) => text.as_str(),
        }
    }

    /// The value a text names; a text no variant uses is kept as `Unknown`.
    pub fn from_text(value: &str) -> (r: AdminUsageWebSearchCallsGroupBy)
        ensures
            r.literal() == value@,
            r.is_unknown() == (AdminUsageWebSearchCallsGroupBy::known(value@) is None),
            AdminUsageWebSearchCallsGroupBy::known(value@) matches Some(k) ==> r == k,
    {
        if str_eq(value, "project_id") {
            AdminUsageWebSearchCallsGroupBy::ProjectId
        } else if str_eq(value, "user_id") {
            AdminUsageWebSearchCallsGroupBy::UserId
        } else if str_eq(value, "api_key_id") {
            AdminUsageWebSearchCallsGroupBy::ApiKeyId
        } else if str_eq(value, "model") {
            AdminUsageWebSearchCallsGroupBy::Model
        } else if str_eq(value, "context_level") {
            AdminUsageWebSearchCallsGroupBy::ContextLevel
        } else {
            AdminUsageWebSearchCallsGroupBy::Unknown(value.to_string())
        }
    }
}

impl Default for AdminUsageWebSearchCallsGroupBy {
    fn default() -> (r: AdminUsageWebSearchCallsGroupBy)
        ensures
            r.literal() == Seq::<char>::empty(),
            r is Unknown,
    {
        AdminUsageWebSearchCallsGroupBy::Unknown(String::new())
    }
}

/// Context-level filters for web-search-call usage.
#[derive(Clone, Debug, PartialEq, Eq)]
pub enum AdminUsageWebSearchContextLevel {
    Low,
    Medium,
    High,
    /// A value this library does not know, kept as received.
    Unknown(String),
}

impl Literal for AdminUsageWebSearchContextLevel {
    open spec fn literal(&self) -> Seq<char> {
        match self {
            AdminUsageWebSearchContextLevel::Low => "low"@,
            AdminUsageWebSearchContextLevel::Medium => "medium"@,
            AdminUsageWebSearchContextLevel::High => "high"@,
            AdminUsageWebSearchContextLevel::Unknown(text) => text@,
        }
    }

    fn to_text(&self) -> (r: String) {
        self.as_str().to_string()
    }
}

impl OpenLiteral for AdminUsageWebSearchContextLevel {
    open spec fn known(text: Seq<char>) -> Option<AdminUsageWebSearchContextLevel> {
        if text == "low"@ {
            Some(AdminUsageWebSearchContextLevel::Low)
        } else if text == "medium"@ {
            Some(AdminUsageWebSearchContextLevel::Medium)
        } else if text == "high"@ {
            Some(AdminUsageWebSearchContextLevel::High)
        } else {
            None
        }
    }

    open spec fn is_unknown(&self) -> bool {
        self is Unknown
    }

    proof fn lemma_known_literal(value: Self) {
        reveal_strlit("low");
        reveal_strlit("medium");
        reveal_strlit("high");
        assert("low"@.len() == 3);
        assert("medium"@.len() == 6);
        assert("high"@.len() == 4);
    }

    proof fn lemma_known_text(text: Seq<char>) {
    }
}

impl AdminUsageWebSearchContextLevel {
    /// The text the API uses for this value.
    pub fn as_str(&self) -> (r: &str)
        ensures
            r@ == self.literal(),
    {
        match self {
            AdminUsageWebSearchContextLevel::Low => "low",
            AdminUsageWebSearchContextLevel::Medium => "medium",
            AdminUsageWebSearchContextLevel::High => "high",
            AdminUsageWebSearchContextLevel::Unknown(text) => text.as_str(),
        }
    }

    /// The value a text names; a text no variant uses is kept as `Unknown`.
    pub fn from_text(value: &str) -> (r: AdminUsageWebSearchContextLevel)
        ensures
            r.literal() == value@,
            r.is_unknown() == (AdminUsageWebSearchContextLevel::known(value@) is None),
            AdminUsageWebSearchContextLevel::known(value@) matches Some(k) ==> r == k,
    {
        if str_eq(value, "low") {
            AdminUsageWebSearchContextLevel::Low
        } else if str_eq(value, "medium") {
            AdminUsageWebSearchContextLevel::Medium
        } else if str_eq(value, "high") {
            AdminUsageWebSearchContextLevel::High
        } else {
            AdminUsageWebSearchContextLevel::Unknown(value.to_string())
        }
    }
}

impl Default for AdminUsageWebSearchContextLevel {
    fn default() -> (r: AdminUsageWebSearchContextLevel)
        ensures
            r.literal() == Seq::<char>::empty(),
            r is Unknown,
    {
        AdminUsageWebSearchContextLevel::Unknown(String::new())
    }
}

/// Query parameters for admin endpoints: an ordered list of key/value pairs.
#[derive(Clone, Debug)]
pub struct AdminQueryParams {
    pairs: QueryPairs,
}

impl View for AdminQueryParams {
    type V = Seq<(Seq<char>, Seq<char>)>;

    closed spec fn view(&self) -> Seq<(Seq<char>, Seq<char>)> {
        self.pairs@
    }
}

impl AdminQueryParams {
    pub fn new() -> (r: AdminQueryParams)
        ensures
            r@ == Seq::<(Seq<char>, Seq<char>)>::empty(),
    {
        AdminQueryParams { pairs: QueryPairs::new() }
    }

    pub(crate) fn from_pairs(pairs: QueryPairs) -> (r: AdminQueryParams)
        ensures
            r@ == pairs@,
    {
        AdminQueryParams { pairs }
    }

    /// Parameters made of the given pairs, in order.
    pub fn from_vec(pairs: Vec<(String, String)>) -> (r: AdminQueryParams)
        ensures
            r@ == crate::query::pairs_view(pairs@),
    {
        AdminQueryParams { pairs: QueryPairs::from_vec(pairs) }
    }

    /// Appends one pair.
    pub fn push(self, key: &str, value: String) -> (r: AdminQueryParams)
        ensures
            r@ == self@.push((key@, value@)),
    {
        let mut r = self;
        r.append(key, value);
        r
    }

    /// Appends one pair when a value is present.
    pub fn push_opt(self, key: &str, value: Option<String>) -> (r: AdminQueryParams)
        ensures
            r@ == self@ + opt_pair(key@, opt_view(value)),
    {
        let mut r = self;
        r.pairs.push_opt(key, value);
        r
    }

    /// Appends one pair in place.
    pub fn append(&mut self, key: &str, value: String)
        ensures
            final(self)@ == old(self)@.push((key@, value@)),
    {
        self.pairs.push(key, value);
    }

    /// Appends the key once for each value, in order.
    pub fn push_repeated(self, key: &str, values: Vec<String>) -> (r: AdminQueryParams)
        ensures
            r@ == self@ + crate::query::repeated_pairs(key@, crate::query::texts_view(values@)),
    {
        let mut r = self;
        r.pairs.push_repeated(key, &values);
        r
    }

    /// Appends the key once for each value when a list is present.
    pub fn push_repeated_opt(self, key: &str, values: Option<Vec<String>>) -> (r: AdminQueryParams)
        ensures
            r@ == self@ + opt_repeated(key@, opt_texts(values)),
    {
        let mut r = self;
        r.pairs.push_repeated_opt(key, &values);
        r
    }

    pub fn is_empty(&self) -> (b: bool)
        ensures
            b == (self@.len() == 0),
    {
        self.pairs.len() == 0
    }

    /// The pairs, in order.
    pub fn pairs(&self) -> (r: &[(String, String)])
        ensures
            crate::query::pairs_view(r@) == self@,
    {
        self.pairs.as_slice()
    }
}


/// Organization audit-log effective-time filter.
#[derive(Clone, Debug, Default, Eq, PartialEq)]
pub struct AdminAuditLogEffectiveAtParams {
    pub gt: Option<i64>,
    pub gte: Option<i64>,
    pub lt: Option<i64>,
    pub lte: Option<i64>,
}

/// Organization audit-log list query parameters.
#[derive(Clone, Debug, Default, Eq, PartialEq)]
pub struct AdminAuditLogListParams {
    pub actor_emails: Option<Vec<String>>,
    pub actor_ids: Option<Vec<String>>,
    pub after: Option<String>,
    pub before: Option<String>,
    pub effective_at: Option<AdminAuditLogEffectiveAtParams>,
    pub event_types: Option<Vec<AdminAuditLogEventType>>,
    pub limit: Option<u32>,
    pub project_ids: Option<Vec<String>>,
    pub resource_ids: Option<Vec<String>>,
}

/// Organization admin API key creation body.
#[derive(Clone, Debug, Default, Eq, PartialEq)]
pub struct AdminApiKeyCreateParams {
    pub name: String,
}

/// Organization admin API key list query parameters.
#[derive(Clone, Debug, Default, Eq, PartialEq)]
pub struct AdminApiKeyListParams {
    pub after: Option<String>,
    pub limit: Option<u32>,
    pub order: Option<ListOrder>,
}

/// Owner information attached to an organization admin API key.
#[derive(Clone, Debug, Default, PartialEq)]
pub struct AdminApiKeyOwner {
    pub id: Option<String>,
    pub created_at: Option<u64>,
    pub name: Option<String>,
    pub object: Option<String>,
    pub role: Option<String>,
    pub owner_type: Option<String>,
    pub extra: BTreeMap<String, Value>,
}

/// Represents an individual organization admin API key.
#[derive(Clone, Debug, PartialEq)]
pub struct AdminApiKey {
    pub id: String,
    pub created_at: u64,
    pub object: AdminApiKeyObject,
    pub owner: AdminApiKeyOwner,
    pub redacted_value: String,
    pub last_used_at: Option<u64>,
    pub name: Option<String>,
    pub extra: BTreeMap<String, Value>,
}

/// Organization admin API key creation response.
#[derive(Clone, Debug, PartialEq)]
pub struct AdminApiKeyCreateResponse {
    pub id: String,
    pub created_at: u64,
    pub object: AdminApiKeyObject,
    pub owner: AdminApiKeyOwner,
    pub redacted_value: String,
    pub value: String,
    pub last_used_at: Option<u64>,
    pub name: Option<String>,
    pub extra: BTreeMap<String, Value>,
}

/// Organization admin API key deletion response.
#[derive(Clone, Debug, PartialEq)]
pub struct AdminApiKeyDeleteResponse {
    pub id: String,
    pub deleted: bool,
    pub object: AdminApiKeyDeletedObject,
    pub extra: BTreeMap<String, Value>,
}

/// Cursor page returned by admin list endpoints.
#[derive(Clone, Debug, Default, PartialEq)]
pub struct AdminCursorPage<T> {
    pub object: Option<String>,
    pub data: Vec<T>,
    pub has_more: Option<bool>,
    pub extra: BTreeMap<String, Value>,
}

pub type AdminApiKeyListResponse = AdminCursorPage<AdminApiKey>;

/// Conversation-style cursor page returned by admin list endpoints.
#[derive(Clone, Debug, Default, PartialEq)]
pub struct AdminConversationCursorPage<T> {
    pub object: Option<String>,
    pub data: Vec<T>,
    pub has_more: Option<bool>,
    pub last_id: Option<String>,
    pub extra: BTreeMap<String, Value>,
}

/// Next-token cursor page returned by admin list endpoints.
#[derive(Clone, Debug, Default, PartialEq)]
pub struct AdminNextCursorPage<T> {
    pub object: Option<String>,
    pub data: Vec<T>,
    pub has_more: Option<bool>,
    pub next: Option<String>,
    pub extra: BTreeMap<String, Value>,
}

/// Non-paginated list page returned by admin bulk action endpoints.
#[derive(Clone, Debug, Default, PartialEq)]
pub struct AdminPage<T> {
    pub data: Vec<T>,
    pub object: String,
    pub extra: BTreeMap<String, Value>,
}

/// Organization invite creation body.
#[derive(Clone, Debug, Default, Eq, PartialEq)]
pub struct AdminInviteCreateParams {
    pub email: String,
    pub role: AdminInviteRole,
    pub projects: Option<Vec<AdminInviteProject>>,
}

/// Project membership granted when an organization invite is accepted.
#[derive(Clone, Debug, Default, Eq, PartialEq)]
pub struct AdminInviteProject {
    pub id: String,
    pub role: AdminProjectMembershipRole,
}

/// Organization invite list query parameters.
#[derive(Clone, Debug, Default, Eq, PartialEq)]
pub struct AdminInviteListParams {
    pub after: Option<String>,
    pub limit: Option<u32>,
}

/// Project membership granted by an organization invite response.
#[derive(Clone, Debug, PartialEq)]
pub struct AdminInviteProjectGrant {
    pub id: String,
    pub role: AdminProjectMembershipRole,
    pub extra: BTreeMap<String, Value>,
}

/// Represents an individual invite to the organization.
#[derive(Clone, Debug, PartialEq)]
pub struct AdminInvite {
    pub id: String,
    pub created_at: u64,
    pub email: String,
    pub object: AdminInviteObject,
    pub projects: Vec<AdminInviteProjectGrant>,
    pub role: AdminInviteRole,
    pub status: AdminInviteStatus,
    pub accepted_at: Option<u64>,
    pub expires_at: Option<u64>,
    pub extra: BTreeMap<String, Value>,
}

/// Organization invite deletion response.
#[derive(Clone, Debug, PartialEq)]
pub struct AdminInviteDeleteResponse {
    pub id: String,
    pub deleted: bool,
    pub object: AdminInviteDeletedObject,
    pub extra: BTreeMap<String, Value>,
}

pub type AdminInviteListResponse = AdminConversationCursorPage<AdminInvite>;

/// Organization user list query parameters.
#[derive(Clone, Debug, Default, Eq, PartialEq)]
pub struct AdminUserListParams {
    pub after: Option<String>,
    pub emails: Option<Vec<String>>,
    pub limit: Option<u32>,
}

/// Organization user update body.
#[derive(Clone, Debug, Default, Eq, PartialEq)]
pub struct AdminUserUpdateParams {
    pub developer_persona: Option<String>,
    pub role: Option<String>,
    pub role_id: Option<String>,
    pub technical_level: Option<String>,
}

/// Project summary associated with an organization user.
#[derive(Clone, Debug, Default, PartialEq)]
pub struct AdminOrganizationUserProject {
    pub id: Option<String>,
    pub name: Option<String>,
    pub role: Option<String>,
    pub extra: BTreeMap<String, Value>,
}

/// Projects associated with an organization user, if included.
#[derive(Clone, Debug, Default, PartialEq)]
pub struct AdminOrganizationUserProjects {
    pub data: Vec<AdminOrganizationUserProject>,
    pub object: Option<String>,
    pub extra: BTreeMap<String, Value>,
}

/// Nested user details inside an organization user response.
#[derive(Clone, Debug, PartialEq)]
pub struct AdminOrganizationUserDetails {
    pub id: String,
    pub object: AdminUserObject,
    pub banned: Option<bool>,
    pub banned_at: Option<u64>,
    pub email: Option<String>,
    pub enabled: Option<bool>,
    pub name: Option<String>,
    pub picture: Option<String>,
    pub extra: BTreeMap<String, Value>,
}

/// Represents an individual user within an organization.
#[derive(Clone, Debug, PartialEq)]
pub struct AdminOrganizationUser {
    pub id: String,
    pub added_at: u64,
    pub object: AdminOrganizationUserObject,
    pub api_key_last_used_at: Option<u64>,
    pub created: Option<u64>,
    pub developer_persona: Option<String>,
    pub email: Option<String>,
    pub is_default: Option<bool>,
    pub is_scale_tier_authorized_purchaser: Option<bool>,
    pub is_scim_managed: Option<bool>,
    pub is_service_account: Option<bool>,
    pub name: Option<String>,
    pub projects: Option<AdminOrganizationUserProjects>,
    pub role: Option<String>,
    pub technical_level: Option<String>,
    pub user: Option<AdminOrganizationUserDetails>,
    pub extra: BTreeMap<String, Value>,
}

/// Organization user deletion response.
#[derive(Clone, Debug, PartialEq)]
pub struct AdminOrganizationUserDeleteResponse {
    pub id: String,
    pub deleted: bool,
    pub object: AdminOrganizationUserDeletedObject,
    pub extra: BTreeMap<String, Value>,
}

pub type AdminOrganizationUserListResponse = AdminConversationCursorPage<AdminOrganizationUser>;

/// Organization role creation body.
#[derive(Clone, Debug, Default, Eq, PartialEq)]
pub struct AdminRoleCreateParams {
    pub description: Option<String>,
    pub permissions: Vec<String>,
    pub role_name: String,
}

/// Organization role update body.
#[derive(Clone, Debug, Default, Eq, PartialEq)]
pub struct AdminRoleUpdateParams {
    pub description: Option<String>,
    pub permissions: Vec<String>,
    pub role_name: Option<String>,
}

/// Organization role list query parameters.
#[derive(Clone, Debug, Default, Eq, PartialEq)]
pub struct AdminRoleListParams {
    pub after: Option<String>,
    pub limit: Option<u32>,
    pub order: Option<ListOrder>,
}

/// Details about a role that can be assigned through the public Roles API.
#[derive(Clone, Debug, PartialEq)]
pub struct AdminRole {
    pub id: String,
    pub description: Option<String>,
    pub name: String,
    pub object: AdminRoleObject,
    pub permissions: Vec<String>,
    pub predefined_role: bool,
    pub resource_type: String,
    pub extra: BTreeMap<String, Value>,
}

/// Confirmation payload returned after deleting a role.
#[derive(Clone, Debug, PartialEq)]
pub struct AdminRoleDeleteResponse {
    pub id: String,
    pub deleted: bool,
    pub object: AdminRoleDeletedObject,
    pub extra: BTreeMap<String, Value>,
}

pub type AdminRoleListResponse = AdminNextCursorPage<AdminRole>;

/// Organization user-role creation body.
#[derive(Clone, Debug, Default, Eq, PartialEq)]
pub struct AdminUserRoleCreateParams {
    pub role_id: String,
}

/// Role assignment linking a user to a role.
#[derive(Clone, Debug, PartialEq)]
pub struct AdminUserRoleCreateResponse {
    pub object: AdminUserRoleObject,
    pub role: AdminRole,
    pub user: AdminOrganizationUser,
    pub extra: BTreeMap<String, Value>,
}

/// Organization user-role list query parameters.
#[derive(Clone, Debug, Default, Eq, PartialEq)]
pub struct AdminUserRoleListParams {
    pub after: Option<String>,
    pub limit: Option<u32>,
    pub order: Option<ListOrder>,
}

pub type AdminUserRoleRetrieveResponse = AdminRoleAssignment;

pub type AdminUserRoleListResponse = AdminNextCursorPage<AdminRoleAssignment>;

/// Organization group creation body.
#[derive(Clone, Debug, Default, Eq, PartialEq)]
pub struct AdminGroupCreateParams {
    pub name: String,
}

/// Organization group update body.
#[derive(Clone, Debug, Default, Eq, PartialEq)]
pub struct AdminGroupUpdateParams {
    pub name: String,
}

/// Organization group list query parameters.
#[derive(Clone, Debug, Default, Eq, PartialEq)]
pub struct AdminGroupListParams {
    pub after: Option<String>,
    pub limit: Option<u32>,
    pub order: Option<ListOrder>,
}

/// Details about an organization group.
#[derive(Clone, Debug, PartialEq)]
pub struct AdminGroup {
    pub id: String,
    pub created_at: u64,
    pub group_type: AdminGroupType,
    pub is_scim_managed: bool,
    pub name: String,
    pub extra: BTreeMap<String, Value>,
}

/// Response returned after updating an organization group.
#[derive(Clone, Debug, PartialEq)]
pub struct AdminGroupUpdateResponse {
    pub id: String,
    pub created_at: u64,
    pub is_scim_managed: bool,
    pub name: String,
    pub extra: BTreeMap<String, Value>,
}

/// Confirmation payload returned after deleting an organization group.
#[derive(Clone, Debug, PartialEq)]
pub struct AdminGroupDeleteResponse {
    pub id: String,
    pub deleted: bool,
    pub object: AdminGroupDeletedObject,
    pub extra: BTreeMap<String, Value>,
}

pub type AdminGroupListResponse = AdminNextCursorPage<AdminGroup>;

/// Organization group-user creation body.
#[derive(Clone, Debug, Default, Eq, PartialEq)]
pub struct AdminGroupUserCreateParams {
    pub user_id: String,
}

/// Organization group-user list query parameters.
#[derive(Clone, Debug, Default, Eq, PartialEq)]
pub struct AdminGroupUserListParams {
    pub after: Option<String>,
    pub limit: Option<u32>,
    pub order: Option<ListOrder>,
}

/// Confirmation payload returned after adding a user to a group.
#[derive(Clone, Debug, PartialEq)]
pub struct AdminGroupUserCreateResponse {
    pub group_id: String,
    pub object: AdminGroupUserObject,
    pub user_id: String,
    pub extra: BTreeMap<String, Value>,
}

/// Represents an individual user returned when inspecting group membership.
#[derive(Clone, Debug, PartialEq)]
pub struct AdminGroupUser {
    pub id: String,
    pub email: Option<String>,
    pub name: String,
    pub extra: BTreeMap<String, Value>,
}

/// Details about a user returned from an organization group membership lookup.
#[derive(Clone, Debug, PartialEq)]
pub struct AdminGroupUserRetrieveResponse {
    pub id: String,
    pub email: Option<String>,
    pub is_service_account: Option<bool>,
    pub name: String,
    pub picture: Option<String>,
    pub user_type: AdminGroupUserType,
    pub extra: BTreeMap<String, Value>,
}

/// Confirmation payload returned after removing a user from a group.
#[derive(Clone, Debug, PartialEq)]
pub struct AdminGroupUserDeleteResponse {
    pub deleted: bool,
    pub object: AdminGroupUserDeletedObject,
    pub extra: BTreeMap<String, Value>,
}

pub type AdminGroupUserListResponse = AdminNextCursorPage<AdminGroupUser>;

/// Organization group-role creation body.
#[derive(Clone, Debug, Default, Eq, PartialEq)]
pub struct AdminGroupRoleCreateParams {
    pub role_id: String,
}

/// Organization group-role list query parameters.
#[derive(Clone, Debug, Default, Eq, PartialEq)]
pub struct AdminGroupRoleListParams {
    pub after: Option<String>,
    pub limit: Option<u32>,
    pub order: Option<ListOrder>,
}

/// Summary information about a group returned in role assignment responses.
#[derive(Clone, Debug, PartialEq)]
pub struct AdminGroupRoleGroup {
    pub id: String,
    pub created_at: u64,
    pub name: String,
    pub object: AdminGroupObject,
    pub scim_managed: bool,
    pub extra: BTreeMap<String, Value>,
}

/// Role assignment linking a group to a role.
#[derive(Clone, Debug, PartialEq)]
pub struct AdminGroupRoleCreateResponse {
    pub group: AdminGroupRoleGroup,
    pub object: AdminGroupRoleObject,
    pub role: AdminRole,
    pub extra: BTreeMap<String, Value>,
}

/// Principal from which a role assignment is inherited.
#[derive(Clone, Debug, PartialEq)]
pub struct AdminRoleAssignmentSource {
    pub principal_id: String,
    pub principal_type: String,
    pub extra: BTreeMap<String, Value>,
}

/// Detailed information about a role assignment entry returned when listing assignments.
#[derive(Clone, Debug, PartialEq)]
pub struct AdminRoleAssignment {
    pub id: String,
    pub assignment_sources: Option<Vec<AdminRoleAssignmentSource>>,
    pub created_at: Option<u64>,
    pub created_by: Option<String>,
    pub created_by_user_obj: Option<BTreeMap<String, Value>>,
    pub description: Option<String>,
    pub metadata: Option<BTreeMap<String, Value>>,
    pub name: String,
    pub permissions: Vec<String>,
    pub predefined_role: bool,
    pub resource_type: String,
    pub updated_at: Option<u64>,
    pub extra: BTreeMap<String, Value>,
}

/// Confirmation payload returned after unassigning a role.
#[derive(Clone, Debug, PartialEq)]
pub struct AdminRoleAssignmentDeleteResponse {
    pub deleted: bool,
    pub object: String,
    pub extra: BTreeMap<String, Value>,
}

pub type AdminGroupRoleRetrieveResponse = AdminRoleAssignment;

pub type AdminGroupRoleListResponse = AdminNextCursorPage<AdminRoleAssignment>;

/// Organization certificate creation body.
#[derive(Clone, Debug, Default, Eq, PartialEq)]
pub struct AdminCertificateCreateParams {
    pub certificate: String,
    pub name: String,
}

/// Organization certificate update body.
#[derive(Clone, Debug, Default, Eq, PartialEq)]
pub struct AdminCertificateUpdateParams {
    pub name: String,
}

/// Organization certificate activation/deactivation body.
#[derive(Clone, Debug, Default, Eq, PartialEq)]
pub struct AdminCertificateIdsParams {
    pub certificate_ids: Vec<String>,
}

/// Organization certificate retrieve query parameters.
#[derive(Clone, Debug, Default, Eq, PartialEq)]
pub struct AdminCertificateRetrieveParams {
    pub includes: Option<Vec<AdminCertificateInclude>>,
}

/// Organization certificate list query parameters.
#[derive(Clone, Debug, Default, Eq, PartialEq)]
pub struct AdminCertificateListParams {
    pub after: Option<String>,
    pub limit: Option<u32>,
    pub order: Option<ListOrder>,
}

/// Certificate validity and optional PEM details.
#[derive(Clone, Debug, Default, PartialEq)]
pub struct AdminCertificateDetails {
    pub content: Option<String>,
    pub expires_at: Option<u64>,
    pub valid_at: Option<u64>,
    pub extra: BTreeMap<String, Value>,
}

/// Represents an individual certificate uploaded to the organization.
#[derive(Clone, Debug, PartialEq)]
pub struct AdminCertificate {
    pub id: String,
    pub active: Option<bool>,
    pub certificate_details: AdminCertificateDetails,
    pub created_at: u64,
    pub name: Option<String>,
    pub object: AdminCertificateObject,
    pub extra: BTreeMap<String, Value>,
}

/// Confirmation payload returned after deleting a certificate.
#[derive(Clone, Debug, PartialEq)]
pub struct AdminCertificateDeleteResponse {
    pub id: String,
    pub object: AdminCertificateDeletedObject,
    pub extra: BTreeMap<String, Value>,
}

pub type AdminCertificateListResponse = AdminConversationCursorPage<AdminCertificate>;

pub type AdminCertificateActionResponse = AdminPage<AdminCertificate>;

/// Organization data-retention update body.
#[derive(Clone, Debug, Default, Eq, PartialEq)]
pub struct AdminDataRetentionUpdateParams {
    pub retention_type: AdminOrganizationDataRetentionType,
}

/// Organization data retention control setting.
#[derive(Clone, Debug, PartialEq)]
pub struct AdminOrganizationDataRetention {
    pub object: AdminOrganizationDataRetentionObject,
    pub retention_type: AdminOrganizationDataRetentionType,
    pub extra: BTreeMap<String, Value>,
}

/// Organization spend-alert creation body.
#[derive(Clone, Debug, Default, Eq, PartialEq)]
pub struct AdminSpendAlertCreateParams {
    pub currency: AdminSpendAlertCurrency,
    pub interval: AdminSpendAlertInterval,
    pub notification_channel: AdminSpendAlertNotificationChannel,
    pub threshold_amount: i64,
}

/// Organization spend-alert update body.
#[derive(Clone, Debug, Default, Eq, PartialEq)]
pub struct AdminSpendAlertUpdateParams {
    pub currency: AdminSpendAlertCurrency,
    pub interval: AdminSpendAlertInterval,
    pub notification_channel: AdminSpendAlertNotificationChannel,
    pub threshold_amount: i64,
}

/// Email notification settings for an organization or project spend alert.
#[derive(Clone, Debug, Default, Eq, PartialEq)]
pub struct AdminSpendAlertNotificationChannel {
    pub recipients: Vec<String>,
    pub kind: AdminSpendAlertNotificationType,
    pub subject_prefix: Option<String>,
}

/// Organization spend-alert list query parameters.
#[derive(Clone, Debug, Default, Eq, PartialEq)]
pub struct AdminSpendAlertListParams {
    pub after: Option<String>,
    pub before: Option<String>,
    pub limit: Option<u32>,
    pub order: Option<ListOrder>,
}

/// Represents a spend alert configured at the organization level.
#[derive(Clone, Debug, PartialEq)]
pub struct AdminOrganizationSpendAlert {
    pub id: String,
    pub currency: AdminSpendAlertCurrency,
    pub interval: AdminSpendAlertInterval,
    pub notification_channel: AdminSpendAlertNotificationChannel,
    pub object: AdminOrganizationSpendAlertObject,
    pub threshold_amount: i64,
    pub extra: BTreeMap<String, Value>,
}

/// Confirmation payload returned after deleting an organization spend alert.
#[derive(Clone, Debug, PartialEq)]
pub struct AdminOrganizationSpendAlertDeleted {
    pub id: String,
    pub deleted: bool,
    pub object: AdminOrganizationSpendAlertDeletedObject,
    pub extra: BTreeMap<String, Value>,
}

pub type AdminOrganizationSpendAlertListResponse =
    AdminConversationCursorPage<AdminOrganizationSpendAlert>;

/// Organization project creation body.
#[derive(Clone, Debug, Default, Eq, PartialEq)]
pub struct AdminProjectCreateParams {
    pub name: String,
    pub external_key_id: Option<String>,
    pub geography: Option<String>,
}

/// Organization project update body.
#[derive(Clone, Debug, Default, Eq, PartialEq)]
pub struct AdminProjectUpdateParams {
    pub external_key_id: Option<String>,
    pub geography: Option<String>,
    pub name: Option<String>,
}

/// Organization project list query parameters.
#[derive(Clone, Debug, Default, Eq, PartialEq)]
pub struct AdminProjectListParams {
    pub after: Option<String>,
    pub include_archived: Option<bool>,
    pub limit: Option<u32>,
}

/// Represents an individual project.
#[derive(Clone, Debug, PartialEq)]
pub struct AdminProject {
    pub id: String,
    pub created_at: u64,
    pub object: AdminProjectObject,
    pub archived_at: Option<u64>,
    pub external_key_id: Option<String>,
    pub name: Option<String>,
    pub status: Option<String>,
    pub extra: BTreeMap<String, Value>,
}

pub type AdminProjectListResponse = AdminConversationCursorPage<AdminProject>;

/// Represents an individual user in a project.
#[derive(Clone, Debug, PartialEq)]
pub struct AdminProjectUser {
    pub id: String,
    pub added_at: u64,
    pub object: AdminProjectUserObject,
    pub role: String,
    pub email: Option<String>,
    pub name: Option<String>,
    pub extra: BTreeMap<String, Value>,
}

/// Confirmation payload returned after deleting a project user.
#[derive(Clone, Debug, PartialEq)]
pub struct AdminProjectUserDeleteResponse {
    pub id: String,
    pub deleted: bool,
    pub object: AdminProjectUserDeletedObject,
    pub extra: BTreeMap<String, Value>,
}

pub type AdminProjectUserListResponse = AdminConversationCursorPage<AdminProjectUser>;

/// Project user creation body.
#[derive(Clone, Debug, Default, Eq, PartialEq)]
pub struct AdminProjectUserCreateParams {
    pub role: String,
    pub email: Option<String>,
    pub user_id: Option<String>,
}

/// Project user update body.
#[derive(Clone, Debug, Default, Eq, PartialEq)]
pub struct AdminProjectUserUpdateParams {
    pub role: Option<String>,
}

/// Project user list query parameters.
#[derive(Clone, Debug, Default, Eq, PartialEq)]
pub struct AdminProjectUserListParams {
    pub after: Option<String>,
    pub limit: Option<u32>,
}

/// Project user-role creation body.
#[derive(Clone, Debug, Default, Eq, PartialEq)]
pub struct AdminProjectUserRoleCreateParams {
    pub role_id: String,
}

/// Project user-role list query parameters.
#[derive(Clone, Debug, Default, Eq, PartialEq)]
pub struct AdminProjectUserRoleListParams {
    pub after: Option<String>,
    pub limit: Option<u32>,
    pub order: Option<ListOrder>,
}

pub type AdminProjectUserRoleCreateResponse = AdminUserRoleCreateResponse;

pub type AdminProjectUserRoleRetrieveResponse = AdminRoleAssignment;

pub type AdminProjectUserRoleListResponse = AdminNextCursorPage<AdminRoleAssignment>;

pub type AdminProjectUserRoleDeleteResponse = AdminRoleAssignmentDeleteResponse;

/// API key returned when creating a project service account.
#[derive(Clone, Debug, PartialEq)]
pub struct AdminProjectServiceAccountApiKey {
    pub id: String,
    pub created_at: u64,
    pub name: String,
    pub object: AdminProjectServiceAccountApiKeyObject,
    pub value: String,
    pub extra: BTreeMap<String, Value>,
}

/// Represents an individual service account in a project.
#[derive(Clone, Debug, PartialEq)]
pub struct AdminProjectServiceAccount {
    pub id: String,
    pub created_at: u64,
    pub name: String,
    pub object: AdminProjectServiceAccountObject,
    pub role: AdminProjectMembershipRole,
    pub extra: BTreeMap<String, Value>,
}

/// Response returned when creating a project service account.
#[derive(Clone, Debug, PartialEq)]
pub struct AdminProjectServiceAccountCreateResponse {
    pub id: String,
    pub api_key: Option<AdminProjectServiceAccountApiKey>,
    pub created_at: u64,
    pub name: String,
    pub object: AdminProjectServiceAccountObject,
    pub role: AdminProjectMembershipRole,
    pub extra: BTreeMap<String, Value>,
}

/// Confirmation payload returned after deleting a project service account.
#[derive(Clone, Debug, PartialEq)]
pub struct AdminProjectServiceAccountDeleteResponse {
    pub id: String,
    pub deleted: bool,
    pub object: AdminProjectServiceAccountDeletedObject,
    pub extra: BTreeMap<String, Value>,
}

pub type AdminProjectServiceAccountListResponse =
    AdminConversationCursorPage<AdminProjectServiceAccount>;

/// Project service-account creation body.
#[derive(Clone, Debug, Default, Eq, PartialEq)]
pub struct AdminProjectServiceAccountCreateParams {
    pub name: String,
}

/// Project service-account update body.
#[derive(Clone, Debug, Default, Eq, PartialEq)]
pub struct AdminProjectServiceAccountUpdateParams {
    pub name: Option<String>,
    pub role: Option<AdminProjectMembershipRole>,
}

/// Project service-account list query parameters.
#[derive(Clone, Debug, Default, Eq, PartialEq)]
pub struct AdminProjectServiceAccountListParams {
    pub after: Option<String>,
    pub limit: Option<u32>,
}

/// Project API key list query parameters.
#[derive(Clone, Debug, Default, Eq, PartialEq)]
pub struct AdminProjectApiKeyListParams {
    pub after: Option<String>,
    pub limit: Option<u32>,
}

/// Service account that owns a project API key.
#[derive(Clone, Debug, PartialEq)]
pub struct ProjectApiKeyOwnerServiceAccount {
    pub id: String,
    pub created_at: u64,
    pub name: String,
    pub role: String,
    pub extra: BTreeMap<String, Value>,
}

/// User that owns a project API key.
#[derive(Clone, Debug, PartialEq)]
pub struct ProjectApiKeyOwnerUser {
    pub id: String,
    pub created_at: u64,
    pub email: String,
    pub name: String,
    pub role: String,
    pub extra: BTreeMap<String, Value>,
}

/// Owner information attached to a project API key.
#[derive(Clone, Debug, Default, PartialEq)]
pub struct ProjectApiKeyOwner {
    pub service_account: Option<ProjectApiKeyOwnerServiceAccount>,
    pub owner_type: Option<ProjectApiKeyOwnerType>,
    pub user: Option<ProjectApiKeyOwnerUser>,
    pub extra: BTreeMap<String, Value>,
}

/// Represents an individual API key in a project.
#[derive(Clone, Debug, PartialEq)]
pub struct ProjectApiKey {
    pub id: String,
    pub created_at: u64,
    pub last_used_at: Option<u64>,
    pub name: String,
    pub object: ProjectApiKeyObject,
    pub owner: ProjectApiKeyOwner,
    pub redacted_value: String,
    pub extra: BTreeMap<String, Value>,
}

/// Project API key deletion response.
#[derive(Clone, Debug, PartialEq)]
pub struct ProjectApiKeyDeleteResponse {
    pub id: String,
    pub deleted: bool,
    pub object: ProjectApiKeyDeletedObject,
    pub extra: BTreeMap<String, Value>,
}

pub type ProjectApiKeyListResponse = AdminConversationCursorPage<ProjectApiKey>;

/// Project rate-limit list query parameters.
#[derive(Clone, Debug, Default, Eq, PartialEq)]
pub struct AdminProjectRateLimitListParams {
    pub after: Option<String>,
    pub before: Option<String>,
    pub limit: Option<u32>,
}

/// Project rate-limit update body.
#[derive(Clone, Debug, Default, Eq, PartialEq)]
pub struct AdminProjectRateLimitUpdateParams {
    pub batch_1_day_max_input_tokens: Option<u64>,
    pub max_audio_megabytes_per_1_minute: Option<u64>,
    pub max_images_per_1_minute: Option<u64>,
    pub max_requests_per_1_day: Option<u64>,
    pub max_requests_per_1_minute: Option<u64>,
    pub max_tokens_per_1_minute: Option<u64>,
}

/// Project model-permission update body.
#[derive(Clone, Debug, Default, Eq, PartialEq)]
pub struct AdminProjectModelPermissionUpdateParams {
    pub mode: Option<AdminProjectModelPermissionMode>,
    pub model_ids: Option<Vec<String>>,
}

/// Project model allowlist or denylist policy.
#[derive(Clone, Debug, PartialEq)]
pub struct AdminProjectModelPermissions {
    pub mode: AdminProjectModelPermissionMode,
    pub model_ids: Vec<String>,
    pub object: AdminProjectModelPermissionsObject,
    pub extra: BTreeMap<String, Value>,
}

/// Confirmation payload returned after deleting project model permissions.
#[derive(Clone, Debug, PartialEq)]
pub struct AdminProjectModelPermissionsDeleted {
    pub deleted: bool,
    pub object: AdminProjectModelPermissionsDeletedObject,
    pub extra: BTreeMap<String, Value>,
}

/// Project hosted-tool permission update body.
#[derive(Clone, Debug, Default, Eq, PartialEq)]
pub struct AdminProjectHostedToolPermissionUpdateParams {
    pub code_interpreter: Option<AdminHostedToolPermission>,
    pub file_search: Option<AdminHostedToolPermission>,
    pub image_generation: Option<AdminHostedToolPermission>,
    pub mcp: Option<AdminHostedToolPermission>,
    pub web_search: Option<AdminHostedToolPermission>,
}

/// Permission update for a single project hosted tool.
#[derive(Clone, Debug, Default, Eq, PartialEq)]
pub struct AdminHostedToolPermission {
    pub enabled: bool,
}

/// Permission state for a single project hosted tool.
#[derive(Clone, Debug, PartialEq)]
pub struct AdminHostedToolPermissionState {
    pub enabled: bool,
    pub extra: BTreeMap<String, Value>,
}

/// Hosted tool permissions configured for a project.
#[derive(Clone, Debug, PartialEq)]
pub struct AdminProjectHostedToolPermissions {
    pub code_interpreter: AdminHostedToolPermissionState,
    pub file_search: AdminHostedToolPermissionState,
    pub image_generation: AdminHostedToolPermissionState,
    pub mcp: AdminHostedToolPermissionState,
    pub web_search: AdminHostedToolPermissionState,
    pub extra: BTreeMap<String, Value>,
}

/// Project group creation body.
#[derive(Clone, Debug, Default, Eq, PartialEq)]
pub struct AdminProjectGroupCreateParams {
    pub group_id: String,
    pub role: String,
}

/// Project group retrieve query parameters.
#[derive(Clone, Debug, Default, Eq, PartialEq)]
pub struct AdminProjectGroupRetrieveParams {
    pub group_type: Option<AdminGroupType>,
}

/// Project group list query parameters.
#[derive(Clone, Debug, Default, Eq, PartialEq)]
pub struct AdminProjectGroupListParams {
    pub after: Option<String>,
    pub limit: Option<u32>,
    pub order: Option<ListOrder>,
}

/// Project group-role creation body.
#[derive(Clone, Debug, Default, Eq, PartialEq)]
pub struct AdminProjectGroupRoleCreateParams {
    pub role_id: String,
}

/// Project group-role list query parameters.
#[derive(Clone, Debug, Default, Eq, PartialEq)]
pub struct AdminProjectGroupRoleListParams {
    pub after: Option<String>,
    pub limit: Option<u32>,
    pub order: Option<ListOrder>,
}

/// Project role creation body.
#[derive(Clone, Debug, Default, Eq, PartialEq)]
pub struct AdminProjectRoleCreateParams {
    pub description: Option<String>,
    pub permissions: Vec<String>,
    pub role_name: String,
}

/// Project role update body.
#[derive(Clone, Debug, Default, Eq, PartialEq)]
pub struct AdminProjectRoleUpdateParams {
    pub description: Option<String>,
    pub permissions: Vec<String>,
    pub role_name: Option<String>,
}

/// Project role list query parameters.
#[derive(Clone, Debug, Default, Eq, PartialEq)]
pub struct AdminProjectRoleListParams {
    pub after: Option<String>,
    pub limit: Option<u32>,
    pub order: Option<ListOrder>,
}

/// Project data-retention update body.
#[derive(Clone, Debug, Default, Eq, PartialEq)]
pub struct AdminProjectDataRetentionUpdateParams {
    pub retention_type: AdminProjectDataRetentionType,
}

/// Project data retention control setting.
#[derive(Clone, Debug, PartialEq)]
pub struct AdminProjectDataRetention {
    pub object: AdminProjectDataRetentionObject,
    pub retention_type: AdminProjectDataRetentionType,
    pub extra: BTreeMap<String, Value>,
}

/// Project spend-alert creation body.
#[derive(Clone, Debug, Default, Eq, PartialEq)]
pub struct AdminProjectSpendAlertCreateParams {
    pub currency: AdminSpendAlertCurrency,
    pub interval: AdminSpendAlertInterval,
    pub notification_channel: AdminSpendAlertNotificationChannel,
    pub threshold_amount: i64,
}

/// Project spend-alert update body.
#[derive(Clone, Debug, Default, Eq, PartialEq)]
pub struct AdminProjectSpendAlertUpdateParams {
    pub currency: AdminSpendAlertCurrency,
    pub interval: AdminSpendAlertInterval,
    pub notification_channel: AdminSpendAlertNotificationChannel,
    pub threshold_amount: i64,
}

/// Project spend-alert list query parameters.
#[derive(Clone, Debug, Default, Eq, PartialEq)]
pub struct AdminProjectSpendAlertListParams {
    pub after: Option<String>,
    pub before: Option<String>,
    pub limit: Option<u32>,
    pub order: Option<ListOrder>,
}

/// Represents a spend alert configured at the project level.
#[derive(Clone, Debug, PartialEq)]
pub struct AdminProjectSpendAlert {
    pub id: String,
    pub currency: AdminSpendAlertCurrency,
    pub interval: AdminSpendAlertInterval,
    pub notification_channel: AdminSpendAlertNotificationChannel,
    pub object: AdminProjectSpendAlertObject,
    pub threshold_amount: i64,
    pub extra: BTreeMap<String, Value>,
}

/// Confirmation payload returned after deleting a project spend alert.
#[derive(Clone, Debug, PartialEq)]
pub struct AdminProjectSpendAlertDeleted {
    pub id: String,
    pub deleted: bool,
    pub object: AdminProjectSpendAlertDeletedObject,
    pub extra: BTreeMap<String, Value>,
}

pub type AdminProjectSpendAlertListResponse = AdminConversationCursorPage<AdminProjectSpendAlert>;

/// Project certificate activation/deactivation body.
#[derive(Clone, Debug, Default, Eq, PartialEq)]
pub struct AdminProjectCertificateIdsParams {
    pub certificate_ids: Vec<String>,
}

/// Project certificate list query parameters.
#[derive(Clone, Debug, Default, Eq, PartialEq)]
pub struct AdminProjectCertificateListParams {
    pub after: Option<String>,
    pub limit: Option<u32>,
    pub order: Option<ListOrder>,
}

pub type AdminProjectCertificateListResponse = AdminConversationCursorPage<AdminCertificate>;

pub type AdminProjectCertificateActionResponse = AdminPage<AdminCertificate>;

/// Organization audio speeches usage query parameters.
#[derive(Clone, Debug, Default, Eq, PartialEq)]
pub struct AdminUsageAudioSpeechesParams {
    pub start_time: Option<i64>,
    pub api_key_ids: Option<Vec<String>>,
    pub bucket_width: Option<AdminUsageBucketWidth>,
    pub end_time: Option<i64>,
    pub group_by: Option<Vec<AdminUsageStandardGroupBy>>,
    pub limit: Option<u32>,
    pub models: Option<Vec<String>>,
    pub page: Option<String>,
    pub project_ids: Option<Vec<String>>,
    pub user_ids: Option<Vec<String>>,
}

/// Organization audio transcriptions usage query parameters.
#[derive(Clone, Debug, Default, Eq, PartialEq)]
pub struct AdminUsageAudioTranscriptionsParams {
    pub start_time: Option<i64>,
    pub api_key_ids: Option<Vec<String>>,
    pub bucket_width: Option<AdminUsageBucketWidth>,
    pub end_time: Option<i64>,
    pub group_by: Option<Vec<AdminUsageStandardGroupBy>>,
    pub limit: Option<u32>,
    pub models: Option<Vec<String>>,
    pub page: Option<String>,
    pub project_ids: Option<Vec<String>>,
    pub user_ids: Option<Vec<String>>,
}

/// Organization code interpreter sessions usage query parameters.
#[derive(Clone, Debug, Default, Eq, PartialEq)]
pub struct AdminUsageCodeInterpreterSessionsParams {
    pub start_time: Option<i64>,
    pub bucket_width: Option<AdminUsageBucketWidth>,
    pub end_time: Option<i64>,
    pub group_by: Option<Vec<AdminUsageProjectGroupBy>>,
    pub limit: Option<u32>,
    pub page: Option<String>,
    pub project_ids: Option<Vec<String>>,
}

/// Organization completions usage query parameters.
#[derive(Clone, Debug, Default, Eq, PartialEq)]
pub struct AdminUsageCompletionsParams {
    pub start_time: Option<i64>,
    pub api_key_ids: Option<Vec<String>>,
    pub batch: Option<bool>,
    pub bucket_width: Option<AdminUsageBucketWidth>,
    pub end_time: Option<i64>,
    pub group_by: Option<Vec<AdminUsageCompletionsGroupBy>>,
    pub limit: Option<u32>,
    pub models: Option<Vec<String>>,
    pub page: Option<String>,
    pub project_ids: Option<Vec<String>>,
    pub user_ids: Option<Vec<String>>,
}

/// Organization costs usage query parameters.
#[derive(Clone, Debug, Default, Eq, PartialEq)]
pub struct AdminUsageCostsParams {
    pub start_time: Option<i64>,
    pub api_key_ids: Option<Vec<String>>,
    pub bucket_width: Option<AdminUsageCostsBucketWidth>,
    pub end_time: Option<i64>,
    pub group_by: Option<Vec<AdminUsageCostsGroupBy>>,
    pub limit: Option<u32>,
    pub page: Option<String>,
    pub project_ids: Option<Vec<String>>,
}

/// Organization embeddings usage query parameters.
#[derive(Clone, Debug, Default, Eq, PartialEq)]
pub struct AdminUsageEmbeddingsParams {
    pub start_time: Option<i64>,
    pub api_key_ids: Option<Vec<String>>,
    pub bucket_width: Option<AdminUsageBucketWidth>,
    pub end_time: Option<i64>,
    pub group_by: Option<Vec<AdminUsageStandardGroupBy>>,
    pub limit: Option<u32>,
    pub models: Option<Vec<String>>,
    pub page: Option<String>,
    pub project_ids: Option<Vec<String>>,
    pub user_ids: Option<Vec<String>>,
}

/// Organization file search calls usage query parameters.
#[derive(Clone, Debug, Default, Eq, PartialEq)]
pub struct AdminUsageFileSearchCallsParams {
    pub start_time: Option<i64>,
    pub api_key_ids: Option<Vec<String>>,
    pub bucket_width: Option<AdminUsageBucketWidth>,
    pub end_time: Option<i64>,
    pub group_by: Option<Vec<AdminUsageFileSearchCallsGroupBy>>,
    pub limit: Option<u32>,
    pub page: Option<String>,
    pub project_ids: Option<Vec<String>>,
    pub user_ids: Option<Vec<String>>,
    pub vector_store_ids: Option<Vec<String>>,
}

/// Organization images usage query parameters.
#[derive(Clone, Debug, Default, Eq, PartialEq)]
pub struct AdminUsageImagesParams {
    pub start_time: Option<i64>,
    pub api_key_ids: Option<Vec<String>>,
    pub bucket_width: Option<AdminUsageBucketWidth>,
    pub end_time: Option<i64>,
    pub group_by: Option<Vec<AdminUsageImagesGroupBy>>,
    pub limit: Option<u32>,
    pub models: Option<Vec<String>>,
    pub page: Option<String>,
    pub project_ids: Option<Vec<String>>,
    pub sizes: Option<Vec<AdminUsageImagesSize>>,
    pub sources: Option<Vec<AdminUsageImagesSource>>,
    pub user_ids: Option<Vec<String>>,
}

/// Organization moderations usage query parameters.
#[derive(Clone, Debug, Default, Eq, PartialEq)]
pub struct AdminUsageModerationsParams {
    pub start_time: Option<i64>,
    pub api_key_ids: Option<Vec<String>>,
    pub bucket_width: Option<AdminUsageBucketWidth>,
    pub end_time: Option<i64>,
    pub group_by: Option<Vec<AdminUsageStandardGroupBy>>,
    pub limit: Option<u32>,
    pub models: Option<Vec<String>>,
    pub page: Option<String>,
    pub project_ids: Option<Vec<String>>,
    pub user_ids: Option<Vec<String>>,
}

/// Organization vector stores usage query parameters.
#[derive(Clone, Debug, Default, Eq, PartialEq)]
pub struct AdminUsageVectorStoresParams {
    pub start_time: Option<i64>,
    pub bucket_width: Option<AdminUsageBucketWidth>,
    pub end_time: Option<i64>,
    pub group_by: Option<Vec<AdminUsageProjectGroupBy>>,
    pub limit: Option<u32>,
    pub page: Option<String>,
    pub project_ids: Option<Vec<String>>,
}

/// Organization web search calls usage query parameters.
#[derive(Clone, Debug, Default, Eq, PartialEq)]
pub struct AdminUsageWebSearchCallsParams {
    pub start_time: Option<i64>,
    pub api_key_ids: Option<Vec<String>>,
    pub bucket_width: Option<AdminUsageBucketWidth>,
    pub context_levels: Option<Vec<AdminUsageWebSearchContextLevel>>,
    pub end_time: Option<i64>,
    pub group_by: Option<Vec<AdminUsageWebSearchCallsGroupBy>>,
    pub limit: Option<u32>,
    pub models: Option<Vec<String>>,
    pub page: Option<String>,
    pub project_ids: Option<Vec<String>>,
    pub user_ids: Option<Vec<String>>,
}

impl AdminAuditLogListParams {
    /// The query pairs of these parameters, in the order the API documents them.
    pub fn into_query_params(self) -> (r: AdminQueryParams)
        ensures
            r@ == Seq::<(Seq<char>, Seq<char>)>::empty() + opt_repeated("actor_emails"@, opt_texts(self.actor_emails)) + opt_repeated("actor_ids"@, opt_texts(self.actor_ids)) + opt_pair("after"@, opt_view(self.after)) + opt_pair("before"@, opt_view(self.before)) + opt_repeated("event_types"@, opt_literals(self.event_types)) + opt_pair("limit"@, opt_u32_decimal(self.limit)) + opt_repeated("project_ids"@, opt_texts(self.project_ids)) + opt_repeated("resource_ids"@, opt_texts(self.resource_ids)) + (if self.effective_at is Some { opt_pair("effective_at[gt]"@, opt_i64_decimal(self.effective_at->Some_0.gt)) + opt_pair("effective_at[gte]"@, opt_i64_decimal(self.effective_at->Some_0.gte)) + opt_pair("effective_at[lt]"@, opt_i64_decimal(self.effective_at->Some_0.lt)) + opt_pair("effective_at[lte]"@, opt_i64_decimal(self.effective_at->Some_0.lte)) } else { Seq::<(Seq<char>, Seq<char>)>::empty() }),
    {
        let mut q = QueryPairs::new();
        q.push_repeated_opt("actor_emails", &self.actor_emails);
        q.push_repeated_opt("actor_ids", &self.actor_ids);
        q.push_opt("after", self.after.clone());
        q.push_opt("before", self.before.clone());
        q.push_repeated_opt_literals("event_types", &self.event_types);
        q.push_opt_u32("limit", self.limit);
        q.push_repeated_opt("project_ids", &self.project_ids);
        q.push_repeated_opt("resource_ids", &self.resource_ids);
        if let Some(effective_at) = &self.effective_at {
            q.push_opt_i64("effective_at[gt]", effective_at.gt);
            q.push_opt_i64("effective_at[gte]", effective_at.gte);
            q.push_opt_i64("effective_at[lt]", effective_at.lt);
            q.push_opt_i64("effective_at[lte]", effective_at.lte);
        }
        AdminQueryParams::from_pairs(q)
    }
}

impl AdminApiKeyListParams {
    /// The query pairs of these parameters, in the order the API documents them.
    pub fn into_query_params(self) -> (r: AdminQueryParams)
        ensures
            r@ == Seq::<(Seq<char>, Seq<char>)>::empty() + opt_pair("after"@, opt_view(self.after)) + opt_pair("limit"@, opt_u32_decimal(self.limit)) + opt_pair("order"@, opt_literal(self.order)),
    {
        let mut q = QueryPairs::new();
        q.push_opt("after", self.after.clone());
        q.push_opt_u32("limit", self.limit);
        q.push_opt_literal("order", &self.order);
        AdminQueryParams::from_pairs(q)
    }
}

impl AdminInviteListParams {
    /// The query pairs of these parameters, in the order the API documents them.
    pub fn into_query_params(self) -> (r: AdminQueryParams)
        ensures
            r@ == Seq::<(Seq<char>, Seq<char>)>::empty() + opt_pair("after"@, opt_view(self.after)) + opt_pair("limit"@, opt_u32_decimal(self.limit)),
    {
        let mut q = QueryPairs::new();
        q.push_opt("after", self.after.clone());
        q.push_opt_u32("limit", self.limit);
        AdminQueryParams::from_pairs(q)
    }
}

impl AdminUserListParams {
    /// The query pairs of these parameters, in the order the API documents them.
    pub fn into_query_params(self) -> (r: AdminQueryParams)
        ensures
            r@ == Seq::<(Seq<char>, Seq<char>)>::empty() + opt_pair("after"@, opt_view(self.after)) + opt_repeated("emails"@, opt_texts(self.emails)) + opt_pair("limit"@, opt_u32_decimal(self.limit)),
    {
        let mut q = QueryPairs::new();
        q.push_opt("after", self.after.clone());
        q.push_repeated_opt("emails", &self.emails);
        q.push_opt_u32("limit", self.limit);
        AdminQueryParams::from_pairs(q)
    }
}

impl AdminRoleListParams {
    /// The query pairs of these parameters, in the order the API documents them.
    pub fn into_query_params(self) -> (r: AdminQueryParams)
        ensures
            r@ == Seq::<(Seq<char>, Seq<char>)>::empty() + opt_pair("after"@, opt_view(self.after)) + opt_pair("limit"@, opt_u32_decimal(self.limit)) + opt_pair("order"@, opt_literal(self.order)),
    {
        let mut q = QueryPairs::new();
        q.push_opt("after", self.after.clone());
        q.push_opt_u32("limit", self.limit);
        q.push_opt_literal("order", &self.order);
        AdminQueryParams::from_pairs(q)
    }
}

impl AdminUserRoleListParams {
    /// The query pairs of these parameters, in the order the API documents them.
    pub fn into_query_params(self) -> (r: AdminQueryParams)
        ensures
            r@ == Seq::<(Seq<char>, Seq<char>)>::empty() + opt_pair("after"@, opt_view(self.after)) + opt_pair("limit"@, opt_u32_decimal(self.limit)) + opt_pair("order"@, opt_literal(self.order)),
    {
        let mut q = QueryPairs::new();
        q.push_opt("after", self.after.clone());
        q.push_opt_u32("limit", self.limit);
        q.push_opt_literal("order", &self.order);
        AdminQueryParams::from_pairs(q)
    }
}

impl AdminGroupListParams {
    /// The query pairs of these parameters, in the order the API documents them.
    pub fn into_query_params(self) -> (r: AdminQueryParams)
        ensures
            r@ == Seq::<(Seq<char>, Seq<char>)>::empty() + opt_pair("after"@, opt_view(self.after)) + opt_pair("limit"@, opt_u32_decimal(self.limit)) + opt_pair("order"@, opt_literal(self.order)),
    {
        let mut q = QueryPairs::new();
        q.push_opt("after", self.after.clone());
        q.push_opt_u32("limit", self.limit);
        q.push_opt_literal("order", &self.order);
        AdminQueryParams::from_pairs(q)
    }
}

impl AdminGroupUserListParams {
    /// The query pairs of these parameters, in the order the API documents them.
    pub fn into_query_params(self) -> (r: AdminQueryParams)
        ensures
            r@ == Seq::<(Seq<char>, Seq<char>)>::empty() + opt_pair("after"@, opt_view(self.after)) + opt_pair("limit"@, opt_u32_decimal(self.limit)) + opt_pair("order"@, opt_literal(self.order)),
    {
        let mut q = QueryPairs::new();
        q.push_opt("after", self.after.clone());
        q.push_opt_u32("limit", self.limit);
        q.push_opt_literal("order", &self.order);
        AdminQueryParams::from_pairs(q)
    }
}

impl AdminGroupRoleListParams {
    /// The query pairs of these parameters, in the order the API documents them.
    pub fn into_query_params(self) -> (r: AdminQueryParams)
        ensures
            r@ == Seq::<(Seq<char>, Seq<char>)>::empty() + opt_pair("after"@, opt_view(self.after)) + opt_pair("limit"@, opt_u32_decimal(self.limit)) + opt_pair("order"@, opt_literal(self.order)),
    {
        let mut q = QueryPairs::new();
        q.push_opt("after", self.after.clone());
        q.push_opt_u32("limit", self.limit);
        q.push_opt_literal("order", &self.order);
        AdminQueryParams::from_pairs(q)
    }
}

impl AdminCertificateRetrieveParams {
    /// The query pairs of these parameters, in the order the API documents them.
    pub fn into_query_params(self) -> (r: AdminQueryParams)
        ensures
            r@ == Seq::<(Seq<char>, Seq<char>)>::empty() + opt_repeated(inclusion_key(), opt_literals(self.includes)),
    {
        let mut q = QueryPairs::new();
        q.push_repeated_opt_literals(inclusion_key_text().as_str(), &self.includes);
        AdminQueryParams::from_pairs(q)
    }
}

impl AdminCertificateListParams {
    /// The query pairs of these parameters, in the order the API documents them.
    pub fn into_query_params(self) -> (r: AdminQueryParams)
        ensures
            r@ == Seq::<(Seq<char>, Seq<char>)>::empty() + opt_pair("after"@, opt_view(self.after)) + opt_pair("limit"@, opt_u32_decimal(self.limit)) + opt_pair("order"@, opt_literal(self.order)),
    {
        let mut q = QueryPairs::new();
        q.push_opt("after", self.after.clone());
        q.push_opt_u32("limit", self.limit);
        q.push_opt_literal("order", &self.order);
        AdminQueryParams::from_pairs(q)
    }
}

impl AdminSpendAlertListParams {
    /// The query pairs of these parameters, in the order the API documents them.
    pub fn into_query_params(self) -> (r: AdminQueryParams)
        ensures
            r@ == Seq::<(Seq<char>, Seq<char>)>::empty() + opt_pair("after"@, opt_view(self.after)) + opt_pair("before"@, opt_view(self.before)) + opt_pair("limit"@, opt_u32_decimal(self.limit)) + opt_pair("order"@, opt_literal(self.order)),
    {
        let mut q = QueryPairs::new();
        q.push_opt("after", self.after.clone());
        q.push_opt("before", self.before.clone());
        q.push_opt_u32("limit", self.limit);
        q.push_opt_literal("order", &self.order);
        AdminQueryParams::from_pairs(q)
    }
}

impl AdminProjectListParams {
    /// The query pairs of these parameters, in the order the API documents them.
    pub fn into_query_params(self) -> (r: AdminQueryParams)
        ensures
            r@ == Seq::<(Seq<char>, Seq<char>)>::empty() + opt_pair("after"@, opt_view(self.after)) + opt_pair("include_archived"@, opt_bool_text(self.include_archived)) + opt_pair("limit"@, opt_u32_decimal(self.limit)),
    {
        let mut q = QueryPairs::new();
        q.push_opt("after", self.after.clone());
        q.push_opt_bool("include_archived", self.include_archived);
        q.push_opt_u32("limit", self.limit);
        AdminQueryParams::from_pairs(q)
    }
}

impl AdminProjectUserListParams {
    /// The query pairs of these parameters, in the order the API documents them.
    pub fn into_query_params(self) -> (r: AdminQueryParams)
        ensures
            r@ == Seq::<(Seq<char>, Seq<char>)>::empty() + opt_pair("after"@, opt_view(self.after)) + opt_pair("limit"@, opt_u32_decimal(self.limit)),
    {
        let mut q = QueryPairs::new();
        q.push_opt("after", self.after.clone());
        q.push_opt_u32("limit", self.limit);
        AdminQueryParams::from_pairs(q)
    }
}

impl AdminProjectUserRoleListParams {
    /// The query pairs of these parameters, in the order the API documents them.
    pub fn into_query_params(self) -> (r: AdminQueryParams)
        ensures
            r@ == Seq::<(Seq<char>, Seq<char>)>::empty() + opt_pair("after"@, opt_view(self.after)) + opt_pair("limit"@, opt_u32_decimal(self.limit)) + opt_pair("order"@, opt_literal(self.order)),
    {
        let mut q = QueryPairs::new();
        q.push_opt("after", self.after.clone());
        q.push_opt_u32("limit", self.limit);
        q.push_opt_literal("order", &self.order);
        AdminQueryParams::from_pairs(q)
    }
}

impl AdminProjectServiceAccountListParams {
    /// The query pairs of these parameters, in the order the API documents them.
    pub fn into_query_params(self) -> (r: AdminQueryParams)
        ensures
            r@ == Seq::<(Seq<char>, Seq<char>)>::empty() + opt_pair("after"@, opt_view(self.after)) + opt_pair("limit"@, opt_u32_decimal(self.limit)),
    {
        let mut q = QueryPairs::new();
        q.push_opt("after", self.after.clone());
        q.push_opt_u32("limit", self.limit);
        AdminQueryParams::from_pairs(q)
    }
}

impl AdminProjectApiKeyListParams {
    /// The query pairs of these parameters, in the order the API documents them.
    pub fn into_query_params(self) -> (r: AdminQueryParams)
        ensures
            r@ == Seq::<(Seq<char>, Seq<char>)>::empty() + opt_pair("after"@, opt_view(self.after)) + opt_pair("limit"@, opt_u32_decimal(self.limit)),
    {
        let mut q = QueryPairs::new();
        q.push_opt("after", self.after.clone());
        q.push_opt_u32("limit", self.limit);
        AdminQueryParams::from_pairs(q)
    }
}

impl AdminProjectRateLimitListParams {
    /// The query pairs of these parameters, in the order the API documents them.
    pub fn into_query_params(self) -> (r: AdminQueryParams)
        ensures
            r@ == Seq::<(Seq<char>, Seq<char>)>::empty() + opt_pair("after"@, opt_view(self.after)) + opt_pair("before"@, opt_view(self.before)) + opt_pair("limit"@, opt_u32_decimal(self.limit)),
    {
        let mut q = QueryPairs::new();
        q.push_opt("after", self.after.clone());
        q.push_opt("before", self.before.clone());
        q.push_opt_u32("limit", self.limit);
        AdminQueryParams::from_pairs(q)
    }
}

impl AdminProjectGroupRetrieveParams {
    /// The query pairs of these parameters, in the order the API documents them.
    pub fn into_query_params(self) -> (r: AdminQueryParams)
        ensures
            r@ == Seq::<(Seq<char>, Seq<char>)>::empty() + opt_pair("group_type"@, opt_literal(self.group_type)),
    {
        let mut q = QueryPairs::new();
        q.push_opt_literal("group_type", &self.group_type);
        AdminQueryParams::from_pairs(q)
    }
}

impl AdminProjectGroupListParams {
    /// The query pairs of these parameters, in the order the API documents them.
    pub fn into_query_params(self) -> (r: AdminQueryParams)
        ensures
            r@ == Seq::<(Seq<char>, Seq<char>)>::empty() + opt_pair("after"@, opt_view(self.after)) + opt_pair("limit"@, opt_u32_decimal(self.limit)) + opt_pair("order"@, opt_literal(self.order)),
    {
        let mut q = QueryPairs::new();
        q.push_opt("after", self.after.clone());
        q.push_opt_u32("limit", self.limit);
        q.push_opt_literal("order", &self.order);
        AdminQueryParams::from_pairs(q)
    }
}

impl AdminProjectGroupRoleListParams {
    /// The query pairs of these parameters, in the order the API documents them.
    pub fn into_query_params(self) -> (r: AdminQueryParams)
        ensures
            r@ == Seq::<(Seq<char>, Seq<char>)>::empty() + opt_pair("after"@, opt_view(self.after)) + opt_pair("limit"@, opt_u32_decimal(self.limit)) + opt_pair("order"@, opt_literal(self.order)),
    {
        let mut q = QueryPairs::new();
        q.push_opt("after", self.after.clone());
        q.push_opt_u32("limit", self.limit);
        q.push_opt_literal("order", &self.order);
        AdminQueryParams::from_pairs(q)
    }
}

impl AdminProjectRoleListParams {
    /// The query pairs of these parameters, in the order the API documents them.
    pub fn into_query_params(self) -> (r: AdminQueryParams)
        ensures
            r@ == Seq::<(Seq<char>, Seq<char>)>::empty() + opt_pair("after"@, opt_view(self.after)) + opt_pair("limit"@, opt_u32_decimal(self.limit)) + opt_pair("order"@, opt_literal(self.order)),
    {
        let mut q = QueryPairs::new();
        q.push_opt("after", self.after.clone());
        q.push_opt_u32("limit", self.limit);
        q.push_opt_literal("order", &self.order);
        AdminQueryParams::from_pairs(q)
    }
}

impl AdminProjectSpendAlertListParams {
    /// The query pairs of these parameters, in the order the API documents them.
    pub fn into_query_params(self) -> (r: AdminQueryParams)
        ensures
            r@ == Seq::<(Seq<char>, Seq<char>)>::empty() + opt_pair("after"@, opt_view(self.after)) + opt_pair("before"@, opt_view(self.before)) + opt_pair("limit"@, opt_u32_decimal(self.limit)) + opt_pair("order"@, opt_literal(self.order)),
    {
        let mut q = QueryPairs::new();
        q.push_opt("after", self.after.clone());
        q.push_opt("before", self.before.clone());
        q.push_opt_u32("limit", self.limit);
        q.push_opt_literal("order", &self.order);
        AdminQueryParams::from_pairs(q)
    }
}

impl AdminProjectCertificateListParams {
    /// The query pairs of these parameters, in the order the API documents them.
    pub fn into_query_params(self) -> (r: AdminQueryParams)
        ensures
            r@ == Seq::<(Seq<char>, Seq<char>)>::empty() + opt_pair("after"@, opt_view(self.after)) + opt_pair("limit"@, opt_u32_decimal(self.limit)) + opt_pair("order"@, opt_literal(self.order)),
    {
        let mut q = QueryPairs::new();
        q.push_opt("after", self.after.clone());
        q.push_opt_u32("limit", self.limit);
        q.push_opt_literal("order", &self.order);
        AdminQueryParams::from_pairs(q)
    }
}

impl AdminUsageAudioSpeechesParams {
    /// The query pairs of these parameters, in the order the API documents them.
    pub fn into_query_params(self) -> (r: AdminQueryParams)
        ensures
            r@ == Seq::<(Seq<char>, Seq<char>)>::empty() + opt_pair("start_time"@, opt_i64_decimal(self.start_time)) + opt_repeated("api_key_ids"@, opt_texts(self.api_key_ids)) + opt_pair("bucket_width"@, opt_literal(self.bucket_width)) + opt_pair("end_time"@, opt_i64_decimal(self.end_time)) + opt_repeated("group_by"@, opt_literals(self.group_by)) + opt_pair("limit"@, opt_u32_decimal(self.limit)) + opt_repeated("models"@, opt_texts(self.models)) + opt_pair("page"@, opt_view(self.page)) + opt_repeated("project_ids"@, opt_texts(self.project_ids)) + opt_repeated("user_ids"@, opt_texts(self.user_ids)),
    {
        let mut q = QueryPairs::new();
        q.push_opt_i64("start_time", self.start_time);
        q.push_repeated_opt("api_key_ids", &self.api_key_ids);
        q.push_opt_literal("bucket_width", &self.bucket_width);
        q.push_opt_i64("end_time", self.end_time);
        q.push_repeated_opt_literals("group_by", &self.group_by);
        q.push_opt_u32("limit", self.limit);
        q.push_repeated_opt("models", &self.models);
        q.push_opt("page", self.page.clone());
        q.push_repeated_opt("project_ids", &self.project_ids);
        q.push_repeated_opt("user_ids", &self.user_ids);
        AdminQueryParams::from_pairs(q)
    }
}

impl AdminUsageAudioTranscriptionsParams {
    /// The query pairs of these parameters, in the order the API documents them.
    pub fn into_query_params(self) -> (r: AdminQueryParams)
        ensures
            r@ == Seq::<(Seq<char>, Seq<char>)>::empty() + opt_pair("start_time"@, opt_i64_decimal(self.start_time)) + opt_repeated("api_key_ids"@, opt_texts(self.api_key_ids)) + opt_pair("bucket_width"@, opt_literal(self.bucket_width)) + opt_pair("end_time"@, opt_i64_decimal(self.end_time)) + opt_repeated("group_by"@, opt_literals(self.group_by)) + opt_pair("limit"@, opt_u32_decimal(self.limit)) + opt_repeated("models"@, opt_texts(self.models)) + opt_pair("page"@, opt_view(self.page)) + opt_repeated("project_ids"@, opt_texts(self.project_ids)) + opt_repeated("user_ids"@, opt_texts(self.user_ids)),
    {
        let mut q = QueryPairs::new();
        q.push_opt_i64("start_time", self.start_time);
        q.push_repeated_opt("api_key_ids", &self.api_key_ids);
        q.push_opt_literal("bucket_width", &self.bucket_width);
        q.push_opt_i64("end_time", self.end_time);
        q.push_repeated_opt_literals("group_by", &self.group_by);
        q.push_opt_u32("limit", self.limit);
        q.push_repeated_opt("models", &self.models);
        q.push_opt("page", self.page.clone());
        q.push_repeated_opt("project_ids", &self.project_ids);
        q.push_repeated_opt("user_ids", &self.user_ids);
        AdminQueryParams::from_pairs(q)
    }
}

impl AdminUsageCodeInterpreterSessionsParams {
    /// The query pairs of these parameters, in the order the API documents them.
    pub fn into_query_params(self) -> (r: AdminQueryParams)
        ensures
            r@ == Seq::<(Seq<char>, Seq<char>)>::empty() + opt_pair("start_time"@, opt_i64_decimal(self.start_time)) + opt_pair("bucket_width"@, opt_literal(self.bucket_width)) + opt_pair("end_time"@, opt_i64_decimal(self.end_time)) + opt_repeated("group_by"@, opt_literals(self.group_by)) + opt_pair("limit"@, opt_u32_decimal(self.limit)) + opt_pair("page"@, opt_view(self.page)) + opt_repeated("project_ids"@, opt_texts(self.project_ids)),
    {
        let mut q = QueryPairs::new();
        q.push_opt_i64("start_time", self.start_time);
        q.push_opt_literal("bucket_width", &self.bucket_width);
        q.push_opt_i64("end_time", self.end_time);
        q.push_repeated_opt_literals("group_by", &self.group_by);
        q.push_opt_u32("limit", self.limit);
        q.push_opt("page", self.page.clone());
        q.push_repeated_opt("project_ids", &self.project_ids);
        AdminQueryParams::from_pairs(q)
    }
}

impl AdminUsageCompletionsParams {
    /// The query pairs of these parameters, in the order the API documents them.
    pub fn into_query_params(self) -> (r: AdminQueryParams)
        ensures
            r@ == Seq::<(Seq<char>, Seq<char>)>::empty() + opt_pair("start_time"@, opt_i64_decimal(self.start_time)) + opt_repeated("api_key_ids"@, opt_texts(self.api_key_ids)) + opt_pair("batch"@, opt_bool_text(self.batch)) + opt_pair("bucket_width"@, opt_literal(self.bucket_width)) + opt_pair("end_time"@, opt_i64_decimal(self.end_time)) + opt_repeated("group_by"@, opt_literals(self.group_by)) + opt_pair("limit"@, opt_u32_decimal(self.limit)) + opt_repeated("models"@, opt_texts(self.models)) + opt_pair("page"@, opt_view(self.page)) + opt_repeated("project_ids"@, opt_texts(self.project_ids)) + opt_repeated("user_ids"@, opt_texts(self.user_ids)),
    {
        let mut q = QueryPairs::new();
        q.push_opt_i64("start_time", self.start_time);
        q.push_repeated_opt("api_key_ids", &self.api_key_ids);
        q.push_opt_bool("batch", self.batch);
        q.push_opt_literal("bucket_width", &self.bucket_width);
        q.push_opt_i64("end_time", self.end_time);
        q.push_repeated_opt_literals("group_by", &self.group_by);
        q.push_opt_u32("limit", self.limit);
        q.push_repeated_opt("models", &self.models);
        q.push_opt("page", self.page.clone());
        q.push_repeated_opt("project_ids", &self.project_ids);
        q.push_repeated_opt("user_ids", &self.user_ids);
        AdminQueryParams::from_pairs(q)
    }
}

impl AdminUsageCostsParams {
    /// The query pairs of these parameters, in the order the API documents them.
    pub fn into_query_params(self) -> (r: AdminQueryParams)
        ensures
            r@ == Seq::<(Seq<char>, Seq<char>)>::empty() + opt_pair("start_time"@, opt_i64_decimal(self.start_time)) + opt_repeated("api_key_ids"@, opt_texts(self.api_key_ids)) + opt_pair("bucket_width"@, opt_literal(self.bucket_width)) + opt_pair("end_time"@, opt_i64_decimal(self.end_time)) + opt_repeated("group_by"@, opt_literals(self.group_by)) + opt_pair("limit"@, opt_u32_decimal(self.limit)) + opt_pair("page"@, opt_view(self.page)) + opt_repeated("project_ids"@, opt_texts(self.project_ids)),
    {
        let mut q = QueryPairs::new();
        q.push_opt_i64("start_time", self.start_time);
        q.push_repeated_opt("api_key_ids", &self.api_key_ids);
        q.push_opt_literal("bucket_width", &self.bucket_width);
        q.push_opt_i64("end_time", self.end_time);
        q.push_repeated_opt_literals("group_by", &self.group_by);
        q.push_opt_u32("limit", self.limit);
        q.push_opt("page", self.page.clone());
        q.push_repeated_opt("project_ids", &self.project_ids);
        AdminQueryParams::from_pairs(q)
    }
}

impl AdminUsageEmbeddingsParams {
    /// The query pairs of these parameters, in the order the API documents them.
    pub fn into_query_params(self) -> (r: AdminQueryParams)
        ensures
            r@ == Seq::<(Seq<char>, Seq<char>)>::empty() + opt_pair("start_time"@, opt_i64_decimal(self.start_time)) + opt_repeated("api_key_ids"@, opt_texts(self.api_key_ids)) + opt_pair("bucket_width"@, opt_literal(self.bucket_width)) + opt_pair("end_time"@, opt_i64_decimal(self.end_time)) + opt_repeated("group_by"@, opt_literals(self.group_by)) + opt_pair("limit"@, opt_u32_decimal(self.limit)) + opt_repeated("models"@, opt_texts(self.models)) + opt_pair("page"@, opt_view(self.page)) + opt_repeated("project_ids"@, opt_texts(self.project_ids)) + opt_repeated("user_ids"@, opt_texts(self.user_ids)),
    {
        let mut q = QueryPairs::new();
        q.push_opt_i64("start_time", self.start_time);
        q.push_repeated_opt("api_key_ids", &self.api_key_ids);
        q.push_opt_literal("bucket_width", &self.bucket_width);
        q.push_opt_i64("end_time", self.end_time);
        q.push_repeated_opt_literals("group_by", &self.group_by);
        q.push_opt_u32("limit", self.limit);
        q.push_repeated_opt("models", &self.models);
        q.push_opt("page", self.page.clone());
        q.push_repeated_opt("project_ids", &self.project_ids);
        q.push_repeated_opt("user_ids", &self.user_ids);
        AdminQueryParams::from_pairs(q)
    }
}

impl AdminUsageFileSearchCallsParams {
    /// The query pairs of these parameters, in the order the API documents them.
    pub fn into_query_params(self) -> (r: AdminQueryParams)
        ensures
            r@ == Seq::<(Seq<char>, Seq<char>)>::empty() + opt_pair("start_time"@, opt_i64_decimal(self.start_time)) + opt_repeated("api_key_ids"@, opt_texts(self.api_key_ids)) + opt_pair("bucket_width"@, opt_literal(self.bucket_width)) + opt_pair("end_time"@, opt_i64_decimal(self.end_time)) + opt_repeated("group_by"@, opt_literals(self.group_by)) + opt_pair("limit"@, opt_u32_decimal(self.limit)) + opt_pair("page"@, opt_view(self.page)) + opt_repeated("project_ids"@, opt_texts(self.project_ids)) + opt_repeated("user_ids"@, opt_texts(self.user_ids)) + opt_repeated("vector_store_ids"@, opt_texts(self.vector_store_ids)),
    {
        let mut q = QueryPairs::new();
        q.push_opt_i64("start_time", self.start_time);
        q.push_repeated_opt("api_key_ids", &self.api_key_ids);
        q.push_opt_literal("bucket_width", &self.bucket_width);
        q.push_opt_i64("end_time", self.end_time);
        q.push_repeated_opt_literals("group_by", &self.group_by);
        q.push_opt_u32("limit", self.limit);
        q.push_opt("page", self.page.clone());
        q.push_repeated_opt("project_ids", &self.project_ids);
        q.push_repeated_opt("user_ids", &self.user_ids);
        q.push_repeated_opt("vector_store_ids", &self.vector_store_ids);
        AdminQueryParams::from_pairs(q)
    }
}

impl AdminUsageImagesParams {
    /// The query pairs of these parameters, in the order the API documents them.
    pub fn into_query_params(self) -> (r: AdminQueryParams)
        ensures
            r@ == Seq::<(Seq<char>, Seq<char>)>::empty() + opt_pair("start_time"@, opt_i64_decimal(self.start_time)) + opt_repeated("api_key_ids"@, opt_texts(self.api_key_ids)) + opt_pair("bucket_width"@, opt_literal(self.bucket_width)) + opt_pair("end_time"@, opt_i64_decimal(self.end_time)) + opt_repeated("group_by"@, opt_literals(self.group_by)) + opt_pair("limit"@, opt_u32_decimal(self.limit)) + opt_repeated("models"@, opt_texts(self.models)) + opt_pair("page"@, opt_view(self.page)) + opt_repeated("project_ids"@, opt_texts(self.project_ids)) + opt_repeated("sizes"@, opt_literals(self.sizes)) + opt_repeated("sources"@, opt_literals(self.sources)) + opt_repeated("user_ids"@, opt_texts(self.user_ids)),
    {
        let mut q = QueryPairs::new();
        q.push_opt_i64("start_time", self.start_time);
        q.push_repeated_opt("api_key_ids", &self.api_key_ids);
        q.push_opt_literal("bucket_width", &self.bucket_width);
        q.push_opt_i64("end_time", self.end_time);
        q.push_repeated_opt_literals("group_by", &self.group_by);
        q.push_opt_u32("limit", self.limit);
        q.push_repeated_opt("models", &self.models);
        q.push_opt("page", self.page.clone());
        q.push_repeated_opt("project_ids", &self.project_ids);
        q.push_repeated_opt_literals("sizes", &self.sizes);
        q.push_repeated_opt_literals("sources", &self.sources);
        q.push_repeated_opt("user_ids", &self.user_ids);
        AdminQueryParams::from_pairs(q)
    }
}

impl AdminUsageModerationsParams {
    /// The query pairs of these parameters, in the order the API documents them.
    pub fn into_query_params(self) -> (r: AdminQueryParams)
        ensures
            r@ == Seq::<(Seq<char>, Seq<char>)>::empty() + opt_pair("start_time"@, opt_i64_decimal(self.start_time)) + opt_repeated("api_key_ids"@, opt_texts(self.api_key_ids)) + opt_pair("bucket_width"@, opt_literal(self.bucket_width)) + opt_pair("end_time"@, opt_i64_decimal(self.end_time)) + opt_repeated("group_by"@, opt_literals(self.group_by)) + opt_pair("limit"@, opt_u32_decimal(self.limit)) + opt_repeated("models"@, opt_texts(self.models)) + opt_pair("page"@, opt_view(self.page)) + opt_repeated("project_ids"@, opt_texts(self.project_ids)) + opt_repeated("user_ids"@, opt_texts(self.user_ids)),
    {
        let mut q = QueryPairs::new();
        q.push_opt_i64("start_time", self.start_time);
        q.push_repeated_opt("api_key_ids", &self.api_key_ids);
        q.push_opt_literal("bucket_width", &self.bucket_width);
        q.push_opt_i64("end_time", self.end_time);
        q.push_repeated_opt_literals("group_by", &self.group_by);
        q.push_opt_u32("limit", self.limit);
        q.push_repeated_opt("models", &self.models);
        q.push_opt("page", self.page.clone());
        q.push_repeated_opt("project_ids", &self.project_ids);
        q.push_repeated_opt("user_ids", &self.user_ids);
        AdminQueryParams::from_pairs(q)
    }
}

impl AdminUsageVectorStoresParams {
    /// The query pairs of these parameters, in the order the API documents them.
    pub fn into_query_params(self) -> (r: AdminQueryParams)
        ensures
            r@ == Seq::<(Seq<char>, Seq<char>)>::empty() + opt_pair("start_time"@, opt_i64_decimal(self.start_time)) + opt_pair("bucket_width"@, opt_literal(self.bucket_width)) + opt_pair("end_time"@, opt_i64_decimal(self.end_time)) + opt_repeated("group_by"@, opt_literals(self.group_by)) + opt_pair("limit"@, opt_u32_decimal(self.limit)) + opt_pair("page"@, opt_view(self.page)) + opt_repeated("project_ids"@, opt_texts(self.project_ids)),
    {
        let mut q = QueryPairs::new();
        q.push_opt_i64("start_time", self.start_time);
        q.push_opt_literal("bucket_width", &self.bucket_width);
        q.push_opt_i64("end_time", self.end_time);
        q.push_repeated_opt_literals("group_by", &self.group_by);
        q.push_opt_u32("limit", self.limit);
        q.push_opt("page", self.page.clone());
        q.push_repeated_opt("project_ids", &self.project_ids);
        AdminQueryParams::from_pairs(q)
    }
}

impl AdminUsageWebSearchCallsParams {
    /// The query pairs of these parameters, in the order the API documents them.
    pub fn into_query_params(self) -> (r: AdminQueryParams)
        ensures
            r@ == Seq::<(Seq<char>, Seq<char>)>::empty() + opt_pair("start_time"@, opt_i64_decimal(self.start_time)) + opt_repeated("api_key_ids"@, opt_texts(self.api_key_ids)) + opt_pair("bucket_width"@, opt_literal(self.bucket_width)) + opt_repeated("context_levels"@, opt_literals(self.context_levels)) + opt_pair("end_time"@, opt_i64_decimal(self.end_time)) + opt_repeated("group_by"@, opt_literals(self.group_by)) + opt_pair("limit"@, opt_u32_decimal(self.limit)) + opt_repeated("models"@, opt_texts(self.models)) + opt_pair("page"@, opt_view(self.page)) + opt_repeated("project_ids"@, opt_texts(self.project_ids)) + opt_repeated("user_ids"@, opt_texts(self.user_ids)),
    {
        let mut q = QueryPairs::new();
        q.push_opt_i64("start_time", self.start_time);
        q.push_repeated_opt("api_key_ids", &self.api_key_ids);
        q.push_opt_literal("bucket_width", &self.bucket_width);
        q.push_repeated_opt_literals("context_levels", &self.context_levels);
        q.push_opt_i64("end_time", self.end_time);
        q.push_repeated_opt_literals("group_by", &self.group_by);
        q.push_opt_u32("limit", self.limit);
        q.push_repeated_opt("models", &self.models);
        q.push_opt("page", self.page.clone());
        q.push_repeated_opt("project_ids", &self.project_ids);
        q.push_repeated_opt("user_ids", &self.user_ids);
        AdminQueryParams::from_pairs(q)
    }
}

/// Whether an admin cursor page has a successor: the server did not deny it and the page is not empty.
pub open spec fn cursor_has_next(has_more: Option<bool>, nonempty: bool) -> bool {
    has_more != Some(false) && nonempty
}

impl AdminCursorPage<AdminApiKey> {
    pub fn has_next_page(&self) -> (b: bool)
        ensures
            b == cursor_has_next(self.has_more, self.data@.len() > 0),
    {
        let not_denied = match self.has_more {
            Some(false) => false,
            _ => true,
        };
        not_denied && self.data.len() > 0
    }

    /// The id of the last key, the cursor for the next page, when there is one.
    pub fn next_after(&self) -> (r: Option<&str>)
        ensures
            r is Some <==> cursor_has_next(self.has_more, self.data@.len() > 0),
            r matches Some(id) ==> id@ == self.data@.last().id@,
    {
        if self.has_next_page() {
            Some(self.data[self.data.len() - 1].id.as_str())
        } else {
            None
        }
    }
}

impl<T> AdminConversationCursorPage<T> {
    pub fn has_next_page(&self) -> (b: bool)
        ensures
            b == cursor_has_next(self.has_more, self.last_id is Some),
    {
        let not_denied = match self.has_more {
            Some(false) => false,
            _ => true,
        };
        not_denied && self.last_id.is_some()
    }

    /// The `last_id` cursor, when there is a next page.
    pub fn next_after(&self) -> (r: Option<&str>)
        ensures
            r is Some <==> cursor_has_next(self.has_more, self.last_id is Some),
            r matches Some(id) ==> id@ == self.last_id->Some_0@,
    {
        if self.has_next_page() {
            match &self.last_id {
                Some(id) => Some(id.as_str()),
                None => None,
            }
        } else {
            None
        }
    }
}

impl<T> AdminNextCursorPage<T> {
    pub fn has_next_page(&self) -> (b: bool)
        ensures
            b == cursor_has_next(self.has_more, self.next is Some),
    {
        let not_denied = match self.has_more {
            Some(false) => false,
            _ => true,
        };
        not_denied && self.next.is_some()
    }

    /// The `next` cursor, when there is a next page.
    pub fn next_after(&self) -> (r: Option<&str>)
        ensures
            r is Some <==> cursor_has_next(self.has_more, self.next is Some),
            r matches Some(id) ==> id@ == self.next->Some_0@,
    {
        if self.has_next_page() {
            match &self.next {
                Some(id) => Some(id.as_str()),
                None => None,
            }
        } else {
            None
        }
    }
}


/// Admin API family.
#[derive(Clone, Copy, Debug)]
pub struct Admin {}

impl Admin {
    pub fn new() -> Admin {
        Admin {}
    }

    pub fn organization(&self) -> Organization {
        Organization::new()
    }

}

/// Organization-scoped admin operations.
#[derive(Clone, Copy, Debug)]
pub struct Organization {}

impl Organization {
    pub fn new() -> Organization {
        Organization {}
    }

    pub fn audit_logs(&self) -> AuditLogs {
        AuditLogs::new()
    }

    pub fn admin_api_keys(&self) -> AdminApiKeys {
        AdminApiKeys::new()
    }

    pub fn usage(&self) -> OrganizationUsage {
        OrganizationUsage::new()
    }

    pub fn invites(&self) -> OrganizationInvites {
        OrganizationInvites::new()
    }

    pub fn users(&self) -> OrganizationUsers {
        OrganizationUsers::new()
    }

    pub fn groups(&self) -> OrganizationGroups {
        OrganizationGroups::new()
    }

    pub fn roles(&self) -> OrganizationRoles {
        OrganizationRoles::new()
    }

    pub fn data_retention(&self) -> OrganizationDataRetention {
        OrganizationDataRetention::new()
    }

    pub fn spend_alerts(&self) -> OrganizationSpendAlerts {
        OrganizationSpendAlerts::new()
    }

    pub fn certificates(&self) -> OrganizationCertificates {
        OrganizationCertificates::new()
    }

    pub fn projects(&self) -> OrganizationProjects {
        OrganizationProjects::new()
    }

}

/// Organization audit log endpoint.
#[derive(Clone, Copy, Debug)]
pub struct AuditLogs {}

impl AuditLogs {
    pub fn new() -> AuditLogs {
        AuditLogs {}
    }

    pub fn list(&self, params: AdminQueryParams) -> (r: Result<ApiRequest, OpenAIError>)
        ensures
            r matches Ok(req) && req@ == plain(HttpMethod::Get, with_query("/organization/audit_logs"@, form_query(params@), params@.len() > 0), BodyView::Empty),
    {
        let mut path = "/organization/audit_logs".to_string();
        let path = path_with_query(path, params.pairs());
        Ok(ApiRequest::new(HttpMethod::Get, path, RequestBody::Empty))
    }

}

/// Organization admin API key endpoints.
#[derive(Clone, Copy, Debug)]
pub struct AdminApiKeys {}

impl AdminApiKeys {
    pub fn new() -> AdminApiKeys {
        AdminApiKeys {}
    }

    pub fn create(&self, body: String) -> (r: Result<ApiRequest, OpenAIError>)
        ensures
            r matches Ok(req) && req@ == plain(HttpMethod::Post, "/organization/admin_api_keys"@, BodyView::Json(body@)),
    {
        let path = "/organization/admin_api_keys".to_string();
        Ok(ApiRequest::new(HttpMethod::Post, path, RequestBody::Json(body)))
    }

    pub fn retrieve(&self, key_id: &str) -> (r: Result<ApiRequest, OpenAIError>)
        ensures
            r is Ok <==> (!is_blank_spec(key_id@)),
            r matches Ok(req) ==> req@ == plain(HttpMethod::Get, "/organization/admin_api_keys/"@ + encoded_id(key_id@), BodyView::Empty),
            r matches Err(e) ==> e.kind == ErrorKind::Validation && e.message@ == blank_message("key_id"@),
    {
        let key_id = path_id("key_id", key_id)?;
        let mut path = "/organization/admin_api_keys/".to_string();
        push_str(&mut path, key_id.as_str());
        Ok(ApiRequest::new(HttpMethod::Get, path, RequestBody::Empty))
    }

    pub fn list(&self, params: AdminQueryParams) -> (r: Result<ApiRequest, OpenAIError>)
        ensures
            r matches Ok(req) && req@ == plain(HttpMethod::Get, with_query("/organization/admin_api_keys"@, form_query(params@), params@.len() > 0), BodyView::Empty),
    {
        let mut path = "/organization/admin_api_keys".to_string();
        let path = path_with_query(path, params.pairs());
        Ok(ApiRequest::new(HttpMethod::Get, path, RequestBody::Empty))
    }

    pub fn delete(&self, key_id: &str) -> (r: Result<ApiRequest, OpenAIError>)
        ensures
            r is Ok <==> (!is_blank_spec(key_id@)),
            r matches Ok(req) ==> req@ == plain(HttpMethod::Delete, "/organization/admin_api_keys/"@ + encoded_id(key_id@), BodyView::Empty),
            r matches Err(e) ==> e.kind == ErrorKind::Validation && e.message@ == blank_message("key_id"@),
    {
        let key_id = path_id("key_id", key_id)?;
        let mut path = "/organization/admin_api_keys/".to_string();
        push_str(&mut path, key_id.as_str());
        Ok(ApiRequest::new(HttpMethod::Delete, path, RequestBody::Empty))
    }

}

/// Organization usage endpoints.
#[derive(Clone, Copy, Debug)]
pub struct OrganizationUsage {}

impl OrganizationUsage {
    pub fn new() -> OrganizationUsage {
        OrganizationUsage {}
    }

    pub fn audio_speeches(&self, params: AdminQueryParams) -> (r: Result<ApiRequest, OpenAIError>)
        ensures
            r matches Ok(req) && req@ == plain(HttpMethod::Get, with_query("/organization/usage/audio_speeches"@, form_query(params@), params@.len() > 0), BodyView::Empty),
    {
        let mut path = "/organization/usage/audio_speeches".to_string();
        let path = path_with_query(path, params.pairs());
        Ok(ApiRequest::new(HttpMethod::Get, path, RequestBody::Empty))
    }

    pub fn audio_transcriptions(&self, params: AdminQueryParams) -> (r: Result<ApiRequest, OpenAIError>)
        ensures
            r matches Ok(req) && req@ == plain(HttpMethod::Get, with_query("/organization/usage/audio_transcriptions"@, form_query(params@), params@.len() > 0), BodyView::Empty),
    {
        let mut path = "/organization/usage/audio_transcriptions".to_string();
        let path = path_with_query(path, params.pairs());
        Ok(ApiRequest::new(HttpMethod::Get, path, RequestBody::Empty))
    }

    pub fn code_interpreter_sessions(&self, params: AdminQueryParams) -> (r: Result<ApiRequest, OpenAIError>)
        ensures
            r matches Ok(req) && req@ == plain(HttpMethod::Get, with_query("/organization/usage/code_interpreter_sessions"@, form_query(params@), params@.len() > 0), BodyView::Empty),
    {
        let mut path = "/organization/usage/code_interpreter_sessions".to_string();
        let path = path_with_query(path, params.pairs());
        Ok(ApiRequest::new(HttpMethod::Get, path, RequestBody::Empty))
    }

    pub fn completions(&self, params: AdminQueryParams) -> (r: Result<ApiRequest, OpenAIError>)
        ensures
            r matches Ok(req) && req@ == plain(HttpMethod::Get, with_query("/organization/usage/completions"@, form_query(params@), params@.len() > 0), BodyView::Empty),
    {
        let mut path = "/organization/usage/completions".to_string();
        let path = path_with_query(path, params.pairs());
        Ok(ApiRequest::new(HttpMethod::Get, path, RequestBody::Empty))
    }

    pub fn costs(&self, params: AdminQueryParams) -> (r: Result<ApiRequest, OpenAIError>)
        ensures
            r matches Ok(req) && req@ == plain(HttpMethod::Get, with_query("/organization/costs"@, form_query(params@), params@.len() > 0), BodyView::Empty),
    {
        let mut path = "/organization/costs".to_string();
        let path = path_with_query(path, params.pairs());
        Ok(ApiRequest::new(HttpMethod::Get, path, RequestBody::Empty))
    }

    pub fn embeddings(&self, params: AdminQueryParams) -> (r: Result<ApiRequest, OpenAIError>)
        ensures
            r matches Ok(req) && req@ == plain(HttpMethod::Get, with_query("/organization/usage/embeddings"@, form_query(params@), params@.len() > 0), BodyView::Empty),
    {
        let mut path = "/organization/usage/embeddings".to_string();
        let path = path_with_query(path, params.pairs());
        Ok(ApiRequest::new(HttpMethod::Get, path, RequestBody::Empty))
    }

    pub fn file_search_calls(&self, params: AdminQueryParams) -> (r: Result<ApiRequest, OpenAIError>)
        ensures
            r matches Ok(req) && req@ == plain(HttpMethod::Get, with_query("/organization/usage/file_search_calls"@, form_query(params@), params@.len() > 0), BodyView::Empty),
    {
        let mut path = "/organization/usage/file_search_calls".to_string();
        let path = path_with_query(path, params.pairs());
        Ok(ApiRequest::new(HttpMethod::Get, path, RequestBody::Empty))
    }

    pub fn images(&self, params: AdminQueryParams) -> (r: Result<ApiRequest, OpenAIError>)
        ensures
            r matches Ok(req) && req@ == plain(HttpMethod::Get, with_query("/organization/usage/images"@, form_query(params@), params@.len() > 0), BodyView::Empty),
    {
        let mut path = "/organization/usage/images".to_string();
        let path = path_with_query(path, params.pairs());
        Ok(ApiRequest::new(HttpMethod::Get, path, RequestBody::Empty))
    }

    pub fn moderations(&self, params: AdminQueryParams) -> (r: Result<ApiRequest, OpenAIError>)
        ensures
            r matches Ok(req) && req@ == plain(HttpMethod::Get, with_query("/organization/usage/moderations"@, form_query(params@), params@.len() > 0), BodyView::Empty),
    {
        let mut path = "/organization/usage/moderations".to_string();
        let path = path_with_query(path, params.pairs());
        Ok(ApiRequest::new(HttpMethod::Get, path, RequestBody::Empty))
    }

    pub fn vector_stores(&self, params: AdminQueryParams) -> (r: Result<ApiRequest, OpenAIError>)
        ensures
            r matches Ok(req) && req@ == plain(HttpMethod::Get, with_query("/organization/usage/vector_stores"@, form_query(params@), params@.len() > 0), BodyView::Empty),
    {
        let mut path = "/organization/usage/vector_stores".to_string();
        let path = path_with_query(path, params.pairs());
        Ok(ApiRequest::new(HttpMethod::Get, path, RequestBody::Empty))
    }

    pub fn web_search_calls(&self, params: AdminQueryParams) -> (r: Result<ApiRequest, OpenAIError>)
        ensures
            r matches Ok(req) && req@ == plain(HttpMethod::Get, with_query("/organization/usage/web_search_calls"@, form_query(params@), params@.len() > 0), BodyView::Empty),
    {
        let mut path = "/organization/usage/web_search_calls".to_string();
        let path = path_with_query(path, params.pairs());
        Ok(ApiRequest::new(HttpMethod::Get, path, RequestBody::Empty))
    }

}

/// Organization invite endpoints.
#[derive(Clone, Copy, Debug)]
pub struct OrganizationInvites {}

impl OrganizationInvites {
    pub fn new() -> OrganizationInvites {
        OrganizationInvites {}
    }

    pub fn create(&self, body: String) -> (r: Result<ApiRequest, OpenAIError>)
        ensures
            r matches Ok(req) && req@ == plain(HttpMethod::Post, "/organization/invites"@, BodyView::Json(body@)),
    {
        let path = "/organization/invites".to_string();
        Ok(ApiRequest::new(HttpMethod::Post, path, RequestBody::Json(body)))
    }

    pub fn retrieve(&self, invite_id: &str) -> (r: Result<ApiRequest, OpenAIError>)
        ensures
            r is Ok <==> (!is_blank_spec(invite_id@)),
            r matches Ok(req) ==> req@ == plain(HttpMethod::Get, "/organization/invites/"@ + encoded_id(invite_id@), BodyView::Empty),
            r matches Err(e) ==> e.kind == ErrorKind::Validation && e.message@ == blank_message("invite_id"@),
    {
        let invite_id = path_id("invite_id", invite_id)?;
        let mut path = "/organization/invites/".to_string();
        push_str(&mut path, invite_id.as_str());
        Ok(ApiRequest::new(HttpMethod::Get, path, RequestBody::Empty))
    }

    pub fn list(&self, params: AdminQueryParams) -> (r: Result<ApiRequest, OpenAIError>)
        ensures
            r matches Ok(req) && req@ == plain(HttpMethod::Get, with_query("/organization/invites"@, form_query(params@), params@.len() > 0), BodyView::Empty),
    {
        let mut path = "/organization/invites".to_string();
        let path = path_with_query(path, params.pairs());
        Ok(ApiRequest::new(HttpMethod::Get, path, RequestBody::Empty))
    }

    pub fn delete(&self, invite_id: &str) -> (r: Result<ApiRequest, OpenAIError>)
        ensures
            r is Ok <==> (!is_blank_spec(invite_id@)),
            r matches Ok(req) ==> req@ == plain(HttpMethod::Delete, "/organization/invites/"@ + encoded_id(invite_id@), BodyView::Empty),
            r matches Err(e) ==> e.kind == ErrorKind::Validation && e.message@ == blank_message("invite_id"@),
    {
        let invite_id = path_id("invite_id", invite_id)?;
        let mut path = "/organization/invites/".to_string();
        push_str(&mut path, invite_id.as_str());
        Ok(ApiRequest::new(HttpMethod::Delete, path, RequestBody::Empty))
    }

}

/// Organization user endpoints.
#[derive(Clone, Copy, Debug)]
pub struct OrganizationUsers {}

impl OrganizationUsers {
    pub fn new() -> OrganizationUsers {
        OrganizationUsers {}
    }

    pub fn roles(&self) -> OrganizationUserRoles {
        OrganizationUserRoles::new()
    }

    pub fn retrieve(&self, user_id: &str) -> (r: Result<ApiRequest, OpenAIError>)
        ensures
            r is Ok <==> (!is_blank_spec(user_id@)),
            r matches Ok(req) ==> req@ == plain(HttpMethod::Get, "/organization/users/"@ + encoded_id(user_id@), BodyView::Empty),
            r matches Err(e) ==> e.kind == ErrorKind::Validation && e.message@ == blank_message("user_id"@),
    {
        let user_id = path_id("user_id", user_id)?;
        let mut path = "/organization/users/".to_string();
        push_str(&mut path, user_id.as_str());
        Ok(ApiRequest::new(HttpMethod::Get, path, RequestBody::Empty))
    }

    pub fn update(&self, user_id: &str, body: String) -> (r: Result<ApiRequest, OpenAIError>)
        ensures
            r is Ok <==> (!is_blank_spec(user_id@)),
            r matches Ok(req) ==> req@ == plain(HttpMethod::Post, "/organization/users/"@ + encoded_id(user_id@), BodyView::Json(body@)),
            r matches Err(e) ==> e.kind == ErrorKind::Validation && e.message@ == blank_message("user_id"@),
    {
        let user_id = path_id("user_id", user_id)?;
        let mut path = "/organization/users/".to_string();
        push_str(&mut path, user_id.as_str());
        Ok(ApiRequest::new(HttpMethod::Post, path, RequestBody::Json(body)))
    }

    pub fn list(&self, params: AdminQueryParams) -> (r: Result<ApiRequest, OpenAIError>)
        ensures
            r matches Ok(req) && req@ == plain(HttpMethod::Get, with_query("/organization/users"@, form_query(params@), params@.len() > 0), BodyView::Empty),
    {
        let mut path = "/organization/users".to_string();
        let path = path_with_query(path, params.pairs());
        Ok(ApiRequest::new(HttpMethod::Get, path, RequestBody::Empty))
    }

    pub fn delete(&self, user_id: &str) -> (r: Result<ApiRequest, OpenAIError>)
        ensures
            r is Ok <==> (!is_blank_spec(user_id@)),
            r matches Ok(req) ==> req@ == plain(HttpMethod::Delete, "/organization/users/"@ + encoded_id(user_id@), BodyView::Empty),
            r matches Err(e) ==> e.kind == ErrorKind::Validation && e.message@ == blank_message("user_id"@),
    {
        let user_id = path_id("user_id", user_id)?;
        let mut path = "/organization/users/".to_string();
        push_str(&mut path, user_id.as_str());
        Ok(ApiRequest::new(HttpMethod::Delete, path, RequestBody::Empty))
    }

}

/// Organization user role endpoints.
#[derive(Clone, Copy, Debug)]
pub struct OrganizationUserRoles {}

impl OrganizationUserRoles {
    pub fn new() -> OrganizationUserRoles {
        OrganizationUserRoles {}
    }

    pub fn create(&self, user_id: &str, body: String) -> (r: Result<ApiRequest, OpenAIError>)
        ensures
            r is Ok <==> (!is_blank_spec(user_id@)),
            r matches Ok(req) ==> req@ == plain(HttpMethod::Post, "/organization/users/"@ + encoded_id(user_id@) + "/roles"@, BodyView::Json(body@)),
            r matches Err(e) ==> e.kind == ErrorKind::Validation && e.message@ == blank_message("user_id"@),
    {
        let user_id = path_id("user_id", user_id)?;
        let mut path = "/organization/users/".to_string();
        push_str(&mut path, user_id.as_str());
        push_str(&mut path, "/roles");
        Ok(ApiRequest::new(HttpMethod::Post, path, RequestBody::Json(body)))
    }

    pub fn retrieve(&self, user_id: &str, role_id: &str) -> (r: Result<ApiRequest, OpenAIError>)
        ensures
            r is Ok <==> (!is_blank_spec(user_id@) && !is_blank_spec(role_id@)),
            r matches Ok(req) ==> req@ == plain(HttpMethod::Get, "/organization/users/"@ + encoded_id(user_id@) + "/roles/"@ + encoded_id(role_id@), BodyView::Empty),
            r matches Err(e) ==> e.kind == ErrorKind::Validation && e.message@ == blank_message(if is_blank_spec(user_id@) { "user_id"@ } else { "role_id"@ }),
    {
        let user_id = path_id("user_id", user_id)?;
        let role_id = path_id("role_id", role_id)?;
        let mut path = "/organization/users/".to_string();
        push_str(&mut path, user_id.as_str());
        push_str(&mut path, "/roles/");
        push_str(&mut path, role_id.as_str());
        Ok(ApiRequest::new(HttpMethod::Get, path, RequestBody::Empty))
    }

    pub fn list(&self, user_id: &str, params: AdminQueryParams) -> (r: Result<ApiRequest, OpenAIError>)
        ensures
            r is Ok <==> (!is_blank_spec(user_id@)),
            r matches Ok(req) ==> req@ == plain(HttpMethod::Get, with_query("/organization/users/"@ + encoded_id(user_id@) + "/roles"@, form_query(params@), params@.len() > 0), BodyView::Empty),
            r matches Err(e) ==> e.kind == ErrorKind::Validation && e.message@ == blank_message("user_id"@),
    {
        let user_id = path_id("user_id", user_id)?;
        let mut path = "/organization/users/".to_string();
        push_str(&mut path, user_id.as_str());
        push_str(&mut path, "/roles");
        let path = path_with_query(path, params.pairs());
        Ok(ApiRequest::new(HttpMethod::Get, path, RequestBody::Empty))
    }

    pub fn delete(&self, user_id: &str, role_id: &str) -> (r: Result<ApiRequest, OpenAIError>)
        ensures
            r is Ok <==> (!is_blank_spec(user_id@) && !is_blank_spec(role_id@)),
            r matches Ok(req) ==> req@ == plain(HttpMethod::Delete, "/organization/users/"@ + encoded_id(user_id@) + "/roles/"@ + encoded_id(role_id@), BodyView::Empty),
            r matches Err(e) ==> e.kind == ErrorKind::Validation && e.message@ == blank_message(if is_blank_spec(user_id@) { "user_id"@ } else { "role_id"@ }),
    {
        let user_id = path_id("user_id", user_id)?;
        let role_id = path_id("role_id", role_id)?;
        let mut path = "/organization/users/".to_string();
        push_str(&mut path, user_id.as_str());
        push_str(&mut path, "/roles/");
        push_str(&mut path, role_id.as_str());
        Ok(ApiRequest::new(HttpMethod::Delete, path, RequestBody::Empty))
    }

}

/// Organization group endpoints.
#[derive(Clone, Copy, Debug)]
pub struct OrganizationGroups {}

impl OrganizationGroups {
    pub fn new() -> OrganizationGroups {
        OrganizationGroups {}
    }

    pub fn users(&self) -> OrganizationGroupUsers {
        OrganizationGroupUsers::new()
    }

    pub fn roles(&self) -> OrganizationGroupRoles {
        OrganizationGroupRoles::new()
    }

    pub fn create(&self, body: String) -> (r: Result<ApiRequest, OpenAIError>)
        ensures
            r matches Ok(req) && req@ == plain(HttpMethod::Post, "/organization/groups"@, BodyView::Json(body@)),
    {
        let path = "/organization/groups".to_string();
        Ok(ApiRequest::new(HttpMethod::Post, path, RequestBody::Json(body)))
    }

    pub fn retrieve(&self, group_id: &str) -> (r: Result<ApiRequest, OpenAIError>)
        ensures
            r is Ok <==> (!is_blank_spec(group_id@)),
            r matches Ok(req) ==> req@ == plain(HttpMethod::Get, "/organization/groups/"@ + encoded_id(group_id@), BodyView::Empty),
            r matches Err(e) ==> e.kind == ErrorKind::Validation && e.message@ == blank_message("group_id"@),
    {
        let group_id = path_id("group_id", group_id)?;
        let mut path = "/organization/groups/".to_string();
        push_str(&mut path, group_id.as_str());
        Ok(ApiRequest::new(HttpMethod::Get, path, RequestBody::Empty))
    }

    pub fn update(&self, group_id: &str, body: String) -> (r: Result<ApiRequest, OpenAIError>)
        ensures
            r is Ok <==> (!is_blank_spec(group_id@)),
            r matches Ok(req) ==> req@ == plain(HttpMethod::Post, "/organization/groups/"@ + encoded_id(group_id@), BodyView::Json(body@)),
            r matches Err(e) ==> e.kind == ErrorKind::Validation && e.message@ == blank_message("group_id"@),
    {
        let group_id = path_id("group_id", group_id)?;
        let mut path = "/organization/groups/".to_string();
        push_str(&mut path, group_id.as_str());
        Ok(ApiRequest::new(HttpMethod::Post, path, RequestBody::Json(body)))
    }

    pub fn list(&self, params: AdminQueryParams) -> (r: Result<ApiRequest, OpenAIError>)
        ensures
            r matches Ok(req) && req@ == plain(HttpMethod::Get, with_query("/organization/groups"@, form_query(params@), params@.len() > 0), BodyView::Empty),
    {
        let mut path = "/organization/groups".to_string();
        let path = path_with_query(path, params.pairs());
        Ok(ApiRequest::new(HttpMethod::Get, path, RequestBody::Empty))
    }

    pub fn delete(&self, group_id: &str) -> (r: Result<ApiRequest, OpenAIError>)
        ensures
            r is Ok <==> (!is_blank_spec(group_id@)),
            r matches Ok(req) ==> req@ == plain(HttpMethod::Delete, "/organization/groups/"@ + encoded_id(group_id@), BodyView::Empty),
            r matches Err(e) ==> e.kind == ErrorKind::Validation && e.message@ == blank_message("group_id"@),
    {
        let group_id = path_id("group_id", group_id)?;
        let mut path = "/organization/groups/".to_string();
        push_str(&mut path, group_id.as_str());
        Ok(ApiRequest::new(HttpMethod::Delete, path, RequestBody::Empty))
    }

}

/// Organization group user endpoints.
#[derive(Clone, Copy, Debug)]
pub struct OrganizationGroupUsers {}

impl OrganizationGroupUsers {
    pub fn new() -> OrganizationGroupUsers {
        OrganizationGroupUsers {}
    }

    pub fn create(&self, group_id: &str, body: String) -> (r: Result<ApiRequest, OpenAIError>)
        ensures
            r is Ok <==> (!is_blank_spec(group_id@)),
            r matches Ok(req) ==> req@ == plain(HttpMethod::Post, "/organization/groups/"@ + encoded_id(group_id@) + "/users"@, BodyView::Json(body@)),
            r matches Err(e) ==> e.kind == ErrorKind::Validation && e.message@ == blank_message("group_id"@),
    {
        let group_id = path_id("group_id", group_id)?;
        let mut path = "/organization/groups/".to_string();
        push_str(&mut path, group_id.as_str());
        push_str(&mut path, "/users");
        Ok(ApiRequest::new(HttpMethod::Post, path, RequestBody::Json(body)))
    }

    pub fn retrieve(&self, group_id: &str, user_id: &str) -> (r: Result<ApiRequest, OpenAIError>)
        ensures
            r is Ok <==> (!is_blank_spec(group_id@) && !is_blank_spec(user_id@)),
            r matches Ok(req) ==> req@ == plain(HttpMethod::Get, "/organization/groups/"@ + encoded_id(group_id@) + "/users/"@ + encoded_id(user_id@), BodyView::Empty),
            r matches Err(e) ==> e.kind == ErrorKind::Validation && e.message@ == blank_message(if is_blank_spec(group_id@) { "group_id"@ } else { "user_id"@ }),
    {
        let group_id = path_id("group_id", group_id)?;
        let user_id = path_id("user_id", user_id)?;
        let mut path = "/organization/groups/".to_string();
        push_str(&mut path, group_id.as_str());
        push_str(&mut path, "/users/");
        push_str(&mut path, user_id.as_str());
        Ok(ApiRequest::new(HttpMethod::Get, path, RequestBody::Empty))
    }

    pub fn list(&self, group_id: &str, params: AdminQueryParams) -> (r: Result<ApiRequest, OpenAIError>)
        ensures
            r is Ok <==> (!is_blank_spec(group_id@)),
            r matches Ok(req) ==> req@ == plain(HttpMethod::Get, with_query("/organization/groups/"@ + encoded_id(group_id@) + "/users"@, form_query(params@), params@.len() > 0), BodyView::Empty),
            r matches Err(e) ==> e.kind == ErrorKind::Validation && e.message@ == blank_message("group_id"@),
    {
        let group_id = path_id("group_id", group_id)?;
        let mut path = "/organization/groups/".to_string();
        push_str(&mut path, group_id.as_str());
        push_str(&mut path, "/users");
        let path = path_with_query(path, params.pairs());
        Ok(ApiRequest::new(HttpMethod::Get, path, RequestBody::Empty))
    }

    pub fn delete(&self, group_id: &str, user_id: &str) -> (r: Result<ApiRequest, OpenAIError>)
        ensures
            r is Ok <==> (!is_blank_spec(group_id@) && !is_blank_spec(user_id@)),
            r matches Ok(req) ==> req@ == plain(HttpMethod::Delete, "/organization/groups/"@ + encoded_id(group_id@) + "/users/"@ + encoded_id(user_id@), BodyView::Empty),
            r matches Err(e) ==> e.kind == ErrorKind::Validation && e.message@ == blank_message(if is_blank_spec(group_id@) { "group_id"@ } else { "user_id"@ }),
    {
        let group_id = path_id("group_id", group_id)?;
        let user_id = path_id("user_id", user_id)?;
        let mut path = "/organization/groups/".to_string();
        push_str(&mut path, group_id.as_str());
        push_str(&mut path, "/users/");
        push_str(&mut path, user_id.as_str());
        Ok(ApiRequest::new(HttpMethod::Delete, path, RequestBody::Empty))
    }

}

/// Organization group role endpoints.
#[derive(Clone, Copy, Debug)]
pub struct OrganizationGroupRoles {}

impl OrganizationGroupRoles {
    pub fn new() -> OrganizationGroupRoles {
        OrganizationGroupRoles {}
    }

    pub fn create(&self, group_id: &str, body: String) -> (r: Result<ApiRequest, OpenAIError>)
        ensures
            r is Ok <==> (!is_blank_spec(group_id@)),
            r matches Ok(req) ==> req@ == plain(HttpMethod::Post, "/organization/groups/"@ + encoded_id(group_id@) + "/roles"@, BodyView::Json(body@)),
            r matches Err(e) ==> e.kind == ErrorKind::Validation && e.message@ == blank_message("group_id"@),
    {
        let group_id = path_id("group_id", group_id)?;
        let mut path = "/organization/groups/".to_string();
        push_str(&mut path, group_id.as_str());
        push_str(&mut path, "/roles");
        Ok(ApiRequest::new(HttpMethod::Post, path, RequestBody::Json(body)))
    }

    pub fn retrieve(&self, group_id: &str, role_id: &str) -> (r: Result<ApiRequest, OpenAIError>)
        ensures
            r is Ok <==> (!is_blank_spec(group_id@) && !is_blank_spec(role_id@)),
            r matches Ok(req) ==> req@ == plain(HttpMethod::Get, "/organization/groups/"@ + encoded_id(group_id@) + "/roles/"@ + encoded_id(role_id@), BodyView::Empty),
            r matches Err(e) ==> e.kind == ErrorKind::Validation && e.message@ == blank_message(if is_blank_spec(group_id@) { "group_id"@ } else { "role_id"@ }),
    {
        let group_id = path_id("group_id", group_id)?;
        let role_id = path_id("role_id", role_id)?;
        let mut path = "/organization/groups/".to_string();
        push_str(&mut path, group_id.as_str());
        push_str(&mut path, "/roles/");
        push_str(&mut path, role_id.as_str());
        Ok(ApiRequest::new(HttpMethod::Get, path, RequestBody::Empty))
    }

    pub fn list(&self, group_id: &str, params: AdminQueryParams) -> (r: Result<ApiRequest, OpenAIError>)
        ensures
            r is Ok <==> (!is_blank_spec(group_id@)),
            r matches Ok(req) ==> req@ == plain(HttpMethod::Get, with_query("/organization/groups/"@ + encoded_id(group_id@) + "/roles"@, form_query(params@), params@.len() > 0), BodyView::Empty),
            r matches Err(e) ==> e.kind == ErrorKind::Validation && e.message@ == blank_message("group_id"@),
    {
        let group_id = path_id("group_id", group_id)?;
        let mut path = "/organization/groups/".to_string();
        push_str(&mut path, group_id.as_str());
        push_str(&mut path, "/roles");
        let path = path_with_query(path, params.pairs());
        Ok(ApiRequest::new(HttpMethod::Get, path, RequestBody::Empty))
    }

    pub fn delete(&self, group_id: &str, role_id: &str) -> (r: Result<ApiRequest, OpenAIError>)
        ensures
            r is Ok <==> (!is_blank_spec(group_id@) && !is_blank_spec(role_id@)),
            r matches Ok(req) ==> req@ == plain(HttpMethod::Delete, "/organization/groups/"@ + encoded_id(group_id@) + "/roles/"@ + encoded_id(role_id@), BodyView::Empty),
            r matches Err(e) ==> e.kind == ErrorKind::Validation && e.message@ == blank_message(if is_blank_spec(group_id@) { "group_id"@ } else { "role_id"@ }),
    {
        let group_id = path_id("group_id", group_id)?;
        let role_id = path_id("role_id", role_id)?;
        let mut path = "/organization/groups/".to_string();
        push_str(&mut path, group_id.as_str());
        push_str(&mut path, "/roles/");
        push_str(&mut path, role_id.as_str());
        Ok(ApiRequest::new(HttpMethod::Delete, path, RequestBody::Empty))
    }

}

/// Organization role endpoints.
#[derive(Clone, Copy, Debug)]
pub struct OrganizationRoles {}

impl OrganizationRoles {
    pub fn new() -> OrganizationRoles {
        OrganizationRoles {}
    }

    pub fn create(&self, body: String) -> (r: Result<ApiRequest, OpenAIError>)
        ensures
            r matches Ok(req) && req@ == plain(HttpMethod::Post, "/organization/roles"@, BodyView::Json(body@)),
    {
        let path = "/organization/roles".to_string();
        Ok(ApiRequest::new(HttpMethod::Post, path, RequestBody::Json(body)))
    }

    pub fn retrieve(&self, role_id: &str) -> (r: Result<ApiRequest, OpenAIError>)
        ensures
            r is Ok <==> (!is_blank_spec(role_id@)),
            r matches Ok(req) ==> req@ == plain(HttpMethod::Get, "/organization/roles/"@ + encoded_id(role_id@), BodyView::Empty),
            r matches Err(e) ==> e.kind == ErrorKind::Validation && e.message@ == blank_message("role_id"@),
    {
        let role_id = path_id("role_id", role_id)?;
        let mut path = "/organization/roles/".to_string();
        push_str(&mut path, role_id.as_str());
        Ok(ApiRequest::new(HttpMethod::Get, path, RequestBody::Empty))
    }

    pub fn update(&self, role_id: &str, body: String) -> (r: Result<ApiRequest, OpenAIError>)
        ensures
            r is Ok <==> (!is_blank_spec(role_id@)),
            r matches Ok(req) ==> req@ == plain(HttpMethod::Post, "/organization/roles/"@ + encoded_id(role_id@), BodyView::Json(body@)),
            r matches Err(e) ==> e.kind == ErrorKind::Validation && e.message@ == blank_message("role_id"@),
    {
        let role_id = path_id("role_id", role_id)?;
        let mut path = "/organization/roles/".to_string();
        push_str(&mut path, role_id.as_str());
        Ok(ApiRequest::new(HttpMethod::Post, path, RequestBody::Json(body)))
    }

    pub fn list(&self, params: AdminQueryParams) -> (r: Result<ApiRequest, OpenAIError>)
        ensures
            r matches Ok(req) && req@ == plain(HttpMethod::Get, with_query("/organization/roles"@, form_query(params@), params@.len() > 0), BodyView::Empty),
    {
        let mut path = "/organization/roles".to_string();
        let path = path_with_query(path, params.pairs());
        Ok(ApiRequest::new(HttpMethod::Get, path, RequestBody::Empty))
    }

    pub fn delete(&self, role_id: &str) -> (r: Result<ApiRequest, OpenAIError>)
        ensures
            r is Ok <==> (!is_blank_spec(role_id@)),
            r matches Ok(req) ==> req@ == plain(HttpMethod::Delete, "/organization/roles/"@ + encoded_id(role_id@), BodyView::Empty),
            r matches Err(e) ==> e.kind == ErrorKind::Validation && e.message@ == blank_message("role_id"@),
    {
        let role_id = path_id("role_id", role_id)?;
        let mut path = "/organization/roles/".to_string();
        push_str(&mut path, role_id.as_str());
        Ok(ApiRequest::new(HttpMethod::Delete, path, RequestBody::Empty))
    }

}

/// Organization data-retention endpoints.
#[derive(Clone, Copy, Debug)]
pub struct OrganizationDataRetention {}

impl OrganizationDataRetention {
    pub fn new() -> OrganizationDataRetention {
        OrganizationDataRetention {}
    }

    pub fn retrieve(&self) -> (r: Result<ApiRequest, OpenAIError>)
        ensures
            r matches Ok(req) && req@ == plain(HttpMethod::Get, "/organization/data_retention"@, BodyView::Empty),
    {
        let path = "/organization/data_retention".to_string();
        Ok(ApiRequest::new(HttpMethod::Get, path, RequestBody::Empty))
    }

    pub fn update(&self, body: String) -> (r: Result<ApiRequest, OpenAIError>)
        ensures
            r matches Ok(req) && req@ == plain(HttpMethod::Post, "/organization/data_retention"@, BodyView::Json(body@)),
    {
        let path = "/organization/data_retention".to_string();
        Ok(ApiRequest::new(HttpMethod::Post, path, RequestBody::Json(body)))
    }

}

/// Organization spend-alert endpoints.
#[derive(Clone, Copy, Debug)]
pub struct OrganizationSpendAlerts {}

impl OrganizationSpendAlerts {
    pub fn new() -> OrganizationSpendAlerts {
        OrganizationSpendAlerts {}
    }

    pub fn create(&self, body: String) -> (r: Result<ApiRequest, OpenAIError>)
        ensures
            r matches Ok(req) && req@ == plain(HttpMethod::Post, "/organization/spend_alerts"@, BodyView::Json(body@)),
    {
        let path = "/organization/spend_alerts".to_string();
        Ok(ApiRequest::new(HttpMethod::Post, path, RequestBody::Json(body)))
    }

    pub fn update(&self, alert_id: &str, body: String) -> (r: Result<ApiRequest, OpenAIError>)
        ensures
            r is Ok <==> (!is_blank_spec(alert_id@)),
            r matches Ok(req) ==> req@ == plain(HttpMethod::Post, "/organization/spend_alerts/"@ + encoded_id(alert_id@), BodyView::Json(body@)),
            r matches Err(e) ==> e.kind == ErrorKind::Validation && e.message@ == blank_message("alert_id"@),
    {
        let alert_id = path_id("alert_id", alert_id)?;
        let mut path = "/organization/spend_alerts/".to_string();
        push_str(&mut path, alert_id.as_str());
        Ok(ApiRequest::new(HttpMethod::Post, path, RequestBody::Json(body)))
    }

    pub fn list(&self, params: AdminQueryParams) -> (r: Result<ApiRequest, OpenAIError>)
        ensures
            r matches Ok(req) && req@ == plain(HttpMethod::Get, with_query("/organization/spend_alerts"@, form_query(params@), params@.len() > 0), BodyView::Empty),
    {
        let mut path = "/organization/spend_alerts".to_string();
        let path = path_with_query(path, params.pairs());
        Ok(ApiRequest::new(HttpMethod::Get, path, RequestBody::Empty))
    }

    pub fn delete(&self, alert_id: &str) -> (r: Result<ApiRequest, OpenAIError>)
        ensures
            r is Ok <==> (!is_blank_spec(alert_id@)),
            r matches Ok(req) ==> req@ == plain(HttpMethod::Delete, "/organization/spend_alerts/"@ + encoded_id(alert_id@), BodyView::Empty),
            r matches Err(e) ==> e.kind == ErrorKind::Validation && e.message@ == blank_message("alert_id"@),
    {
        let alert_id = path_id("alert_id", alert_id)?;
        let mut path = "/organization/spend_alerts/".to_string();
        push_str(&mut path, alert_id.as_str());
        Ok(ApiRequest::new(HttpMethod::Delete, path, RequestBody::Empty))
    }

}

/// Organization certificate endpoints.
#[derive(Clone, Copy, Debug)]
pub struct OrganizationCertificates {}

impl OrganizationCertificates {
    pub fn new() -> OrganizationCertificates {
        OrganizationCertificates {}
    }

    pub fn create(&self, body: String) -> (r: Result<ApiRequest, OpenAIError>)
        ensures
            r matches Ok(req) && req@ == plain(HttpMethod::Post, "/organization/certificates"@, BodyView::Json(body@)),
    {
        let path = "/organization/certificates".to_string();
        Ok(ApiRequest::new(HttpMethod::Post, path, RequestBody::Json(body)))
    }

    pub fn retrieve(&self, certificate_id: &str, params: AdminQueryParams) -> (r: Result<ApiRequest, OpenAIError>)
        ensures
            r is Ok <==> (!is_blank_spec(certificate_id@)),
            r matches Ok(req) ==> req@ == plain(HttpMethod::Get, with_query("/organization/certificates/"@ + encoded_id(certificate_id@), form_query(params@), params@.len() > 0), BodyView::Empty),
            r matches Err(e) ==> e.kind == ErrorKind::Validation && e.message@ == blank_message("certificate_id"@),
    {
        let certificate_id = path_id("certificate_id", certificate_id)?;
        let mut path = "/organization/certificates/".to_string();
        push_str(&mut path, certificate_id.as_str());
        let path = path_with_query(path, params.pairs());
        Ok(ApiRequest::new(HttpMethod::Get, path, RequestBody::Empty))
    }

    pub fn update(&self, certificate_id: &str, body: String) -> (r: Result<ApiRequest, OpenAIError>)
        ensures
            r is Ok <==> (!is_blank_spec(certificate_id@)),
            r matches Ok(req) ==> req@ == plain(HttpMethod::Post, "/organization/certificates/"@ + encoded_id(certificate_id@), BodyView::Json(body@)),
            r matches Err(e) ==> e.kind == ErrorKind::Validation && e.message@ == blank_message("certificate_id"@),
    {
        let certificate_id = path_id("certificate_id", certificate_id)?;
        let mut path = "/organization/certificates/".to_string();
        push_str(&mut path, certificate_id.as_str());
        Ok(ApiRequest::new(HttpMethod::Post, path, RequestBody::Json(body)))
    }

    pub fn list(&self, params: AdminQueryParams) -> (r: Result<ApiRequest, OpenAIError>)
        ensures
            r matches Ok(req) && req@ == plain(HttpMethod::Get, with_query("/organization/certificates"@, form_query(params@), params@.len() > 0), BodyView::Empty),
    {
        let mut path = "/organization/certificates".to_string();
        let path = path_with_query(path, params.pairs());
        Ok(ApiRequest::new(HttpMethod::Get, path, RequestBody::Empty))
    }

    pub fn delete(&self, certificate_id: &str) -> (r: Result<ApiRequest, OpenAIError>)
        ensures
            r is Ok <==> (!is_blank_spec(certificate_id@)),
            r matches Ok(req) ==> req@ == plain(HttpMethod::Delete, "/organization/certificates/"@ + encoded_id(certificate_id@), BodyView::Empty),
            r matches Err(e) ==> e.kind == ErrorKind::Validation && e.message@ == blank_message("certificate_id"@),
    {
        let certificate_id = path_id("certificate_id", certificate_id)?;
        let mut path = "/organization/certificates/".to_string();
        push_str(&mut path, certificate_id.as_str());
        Ok(ApiRequest::new(HttpMethod::Delete, path, RequestBody::Empty))
    }

    pub fn activate(&self, body: String) -> (r: Result<ApiRequest, OpenAIError>)
        ensures
            r matches Ok(req) && req@ == plain(HttpMethod::Post, "/organization/certificates/activate"@, BodyView::Json(body@)),
    {
        let path = "/organization/certificates/activate".to_string();
        Ok(ApiRequest::new(HttpMethod::Post, path, RequestBody::Json(body)))
    }

    pub fn deactivate(&self, body: String) -> (r: Result<ApiRequest, OpenAIError>)
        ensures
            r matches Ok(req) && req@ == plain(HttpMethod::Post, "/organization/certificates/deactivate"@, BodyView::Json(body@)),
    {
        let path = "/organization/certificates/deactivate".to_string();
        Ok(ApiRequest::new(HttpMethod::Post, path, RequestBody::Json(body)))
    }

}

/// Organization project endpoints.
#[derive(Clone, Copy, Debug)]
pub struct OrganizationProjects {}

impl OrganizationProjects {
    pub fn new() -> OrganizationProjects {
        OrganizationProjects {}
    }

    pub fn users(&self) -> ProjectUsers {
        ProjectUsers::new()
    }

    pub fn service_accounts(&self) -> ProjectServiceAccounts {
        ProjectServiceAccounts::new()
    }

    pub fn api_keys(&self) -> ProjectApiKeys {
        ProjectApiKeys::new()
    }

    pub fn rate_limits(&self) -> ProjectRateLimits {
        ProjectRateLimits::new()
    }

    pub fn model_permissions(&self) -> ProjectModelPermissions {
        ProjectModelPermissions::new()
    }

    pub fn hosted_tool_permissions(&self) -> ProjectHostedToolPermissions {
        ProjectHostedToolPermissions::new()
    }

    pub fn groups(&self) -> ProjectGroups {
        ProjectGroups::new()
    }

    pub fn roles(&self) -> ProjectRoles {
        ProjectRoles::new()
    }

    pub fn data_retention(&self) -> ProjectDataRetention {
        ProjectDataRetention::new()
    }

    pub fn spend_alerts(&self) -> ProjectSpendAlerts {
        ProjectSpendAlerts::new()
    }

    pub fn certificates(&self) -> ProjectCertificates {
        ProjectCertificates::new()
    }

    pub fn create(&self, body: String) -> (r: Result<ApiRequest, OpenAIError>)
        ensures
            r matches Ok(req) && req@ == plain(HttpMethod::Post, "/organization/projects"@, BodyView::Json(body@)),
    {
        let path = "/organization/projects".to_string();
        Ok(ApiRequest::new(HttpMethod::Post, path, RequestBody::Json(body)))
    }

    pub fn retrieve(&self, project_id: &str) -> (r: Result<ApiRequest, OpenAIError>)
        ensures
            r is Ok <==> (!is_blank_spec(project_id@)),
            r matches Ok(req) ==> req@ == plain(HttpMethod::Get, "/organization/projects/"@ + encoded_id(project_id@), BodyView::Empty),
            r matches Err(e) ==> e.kind == ErrorKind::Validation && e.message@ == blank_message("project_id"@),
    {
        let project_id = path_id("project_id", project_id)?;
        let mut path = "/organization/projects/".to_string();
        push_str(&mut path, project_id.as_str());
        Ok(ApiRequest::new(HttpMethod::Get, path, RequestBody::Empty))
    }

    pub fn update(&self, project_id: &str, body: String) -> (r: Result<ApiRequest, OpenAIError>)
        ensures
            r is Ok <==> (!is_blank_spec(project_id@)),
            r matches Ok(req) ==> req@ == plain(HttpMethod::Post, "/organization/projects/"@ + encoded_id(project_id@), BodyView::Json(body@)),
            r matches Err(e) ==> e.kind == ErrorKind::Validation && e.message@ == blank_message("project_id"@),
    {
        let project_id = path_id("project_id", project_id)?;
        let mut path = "/organization/projects/".to_string();
        push_str(&mut path, project_id.as_str());
        Ok(ApiRequest::new(HttpMethod::Post, path, RequestBody::Json(body)))
    }

    pub fn list(&self, params: AdminQueryParams) -> (r: Result<ApiRequest, OpenAIError>)
        ensures
            r matches Ok(req) && req@ == plain(HttpMethod::Get, with_query("/organization/projects"@, form_query(params@), params@.len() > 0), BodyView::Empty),
    {
        let mut path = "/organization/projects".to_string();
        let path = path_with_query(path, params.pairs());
        Ok(ApiRequest::new(HttpMethod::Get, path, RequestBody::Empty))
    }

    pub fn archive(&self, project_id: &str) -> (r: Result<ApiRequest, OpenAIError>)
        ensures
            r is Ok <==> (!is_blank_spec(project_id@)),
            r matches Ok(req) ==> req@ == plain(HttpMethod::Post, "/organization/projects/"@ + encoded_id(project_id@) + "/archive"@, BodyView::Empty),
            r matches Err(e) ==> e.kind == ErrorKind::Validation && e.message@ == blank_message("project_id"@),
    {
        let project_id = path_id("project_id", project_id)?;
        let mut path = "/organization/projects/".to_string();
        push_str(&mut path, project_id.as_str());
        push_str(&mut path, "/archive");
        Ok(ApiRequest::new(HttpMethod::Post, path, RequestBody::Empty))
    }

}

/// Project user endpoints.
#[derive(Clone, Copy, Debug)]
pub struct ProjectUsers {}

impl ProjectUsers {
    pub fn new() -> ProjectUsers {
        ProjectUsers {}
    }

    pub fn roles(&self) -> ProjectUserRoles {
        ProjectUserRoles::new()
    }

    pub fn create(&self, project_id: &str, body: String) -> (r: Result<ApiRequest, OpenAIError>)
        ensures
            r is Ok <==> (!is_blank_spec(project_id@)),
            r matches Ok(req) ==> req@ == plain(HttpMethod::Post, "/organization/projects/"@ + encoded_id(project_id@) + "/users"@, BodyView::Json(body@)),
            r matches Err(e) ==> e.kind == ErrorKind::Validation && e.message@ == blank_message("project_id"@),
    {
        let project_id = path_id("project_id", project_id)?;
        let mut path = "/organization/projects/".to_string();
        push_str(&mut path, project_id.as_str());
        push_str(&mut path, "/users");
        Ok(ApiRequest::new(HttpMethod::Post, path, RequestBody::Json(body)))
    }

    pub fn retrieve(&self, project_id: &str, user_id: &str) -> (r: Result<ApiRequest, OpenAIError>)
        ensures
            r is Ok <==> (!is_blank_spec(project_id@) && !is_blank_spec(user_id@)),
            r matches Ok(req) ==> req@ == plain(HttpMethod::Get, "/organization/projects/"@ + encoded_id(project_id@) + "/users/"@ + encoded_id(user_id@), BodyView::Empty),
            r matches Err(e) ==> e.kind == ErrorKind::Validation && e.message@ == blank_message(if is_blank_spec(project_id@) { "project_id"@ } else { "user_id"@ }),
    {
        let project_id = path_id("project_id", project_id)?;
        let user_id = path_id("user_id", user_id)?;
        let mut path = "/organization/projects/".to_string();
        push_str(&mut path, project_id.as_str());
        push_str(&mut path, "/users/");
        push_str(&mut path, user_id.as_str());
        Ok(ApiRequest::new(HttpMethod::Get, path, RequestBody::Empty))
    }

    pub fn update(&self, project_id: &str, user_id: &str, body: String) -> (r: Result<ApiRequest, OpenAIError>)
        ensures
            r is Ok <==> (!is_blank_spec(project_id@) && !is_blank_spec(user_id@)),
            r matches Ok(req) ==> req@ == plain(HttpMethod::Post, "/organization/projects/"@ + encoded_id(project_id@) + "/users/"@ + encoded_id(user_id@), BodyView::Json(body@)),
            r matches Err(e) ==> e.kind == ErrorKind::Validation && e.message@ == blank_message(if is_blank_spec(project_id@) { "project_id"@ } else { "user_id"@ }),
    {
        let project_id = path_id("project_id", project_id)?;
        let user_id = path_id("user_id", user_id)?;
        let mut path = "/organization/projects/".to_string();
        push_str(&mut path, project_id.as_str());
        push_str(&mut path, "/users/");
        push_str(&mut path, user_id.as_str());
        Ok(ApiRequest::new(HttpMethod::Post, path, RequestBody::Json(body)))
    }

    pub fn list(&self, project_id: &str, params: AdminQueryParams) -> (r: Result<ApiRequest, OpenAIError>)
        ensures
            r is Ok <==> (!is_blank_spec(project_id@)),
            r matches Ok(req) ==> req@ == plain(HttpMethod::Get, with_query("/organization/projects/"@ + encoded_id(project_id@) + "/users"@, form_query(params@), params@.len() > 0), BodyView::Empty),
            r matches Err(e) ==> e.kind == ErrorKind::Validation && e.message@ == blank_message("project_id"@),
    {
        let project_id = path_id("project_id", project_id)?;
        let mut path = "/organization/projects/".to_string();
        push_str(&mut path, project_id.as_str());
        push_str(&mut path, "/users");
        let path = path_with_query(path, params.pairs());
        Ok(ApiRequest::new(HttpMethod::Get, path, RequestBody::Empty))
    }

    pub fn delete(&self, project_id: &str, user_id: &str) -> (r: Result<ApiRequest, OpenAIError>)
        ensures
            r is Ok <==> (!is_blank_spec(project_id@) && !is_blank_spec(user_id@)),
            r matches Ok(req) ==> req@ == plain(HttpMethod::Delete, "/organization/projects/"@ + encoded_id(project_id@) + "/users/"@ + encoded_id(user_id@), BodyView::Empty),
            r matches Err(e) ==> e.kind == ErrorKind::Validation && e.message@ == blank_message(if is_blank_spec(project_id@) { "project_id"@ } else { "user_id"@ }),
    {
        let project_id = path_id("project_id", project_id)?;
        let user_id = path_id("user_id", user_id)?;
        let mut path = "/organization/projects/".to_string();
        push_str(&mut path, project_id.as_str());
        push_str(&mut path, "/users/");
        push_str(&mut path, user_id.as_str());
        Ok(ApiRequest::new(HttpMethod::Delete, path, RequestBody::Empty))
    }

}

/// Project user role endpoints.
#[derive(Clone, Copy, Debug)]
pub struct ProjectUserRoles {}

impl ProjectUserRoles {
    pub fn new() -> ProjectUserRoles {
        ProjectUserRoles {}
    }

    pub fn create(&self, project_id: &str, user_id: &str, body: String) -> (r: Result<ApiRequest, OpenAIError>)
        ensures
            r is Ok <==> (!is_blank_spec(project_id@) && !is_blank_spec(user_id@)),
            r matches Ok(req) ==> req@ == plain(HttpMethod::Post, "/projects/"@ + encoded_id(project_id@) + "/users/"@ + encoded_id(user_id@) + "/roles"@, BodyView::Json(body@)),
            r matches Err(e) ==> e.kind == ErrorKind::Validation && e.message@ == blank_message(if is_blank_spec(project_id@) { "project_id"@ } else { "user_id"@ }),
    {
        let project_id = path_id("project_id", project_id)?;
        let user_id = path_id("user_id", user_id)?;
        let mut path = "/projects/".to_string();
        push_str(&mut path, project_id.as_str());
        push_str(&mut path, "/users/");
        push_str(&mut path, user_id.as_str());
        push_str(&mut path, "/roles");
        Ok(ApiRequest::new(HttpMethod::Post, path, RequestBody::Json(body)))
    }

    pub fn retrieve(&self, project_id: &str, user_id: &str, role_id: &str) -> (r: Result<ApiRequest, OpenAIError>)
        ensures
            r is Ok <==> (!is_blank_spec(project_id@) && !is_blank_spec(user_id@) && !is_blank_spec(role_id@)),
            r matches Ok(req) ==> req@ == plain(HttpMethod::Get, "/projects/"@ + encoded_id(project_id@) + "/users/"@ + encoded_id(user_id@) + "/roles/"@ + encoded_id(role_id@), BodyView::Empty),
            r matches Err(e) ==> e.kind == ErrorKind::Validation && e.message@ == blank_message(if is_blank_spec(project_id@) { "project_id"@ } else { if is_blank_spec(user_id@) { "user_id"@ } else { "role_id"@ } }),
    {
        let project_id = path_id("project_id", project_id)?;
        let user_id = path_id("user_id", user_id)?;
        let role_id = path_id("role_id", role_id)?;
        let mut path = "/projects/".to_string();
        push_str(&mut path, project_id.as_str());
        push_str(&mut path, "/users/");
        push_str(&mut path, user_id.as_str());
        push_str(&mut path, "/roles/");
        push_str(&mut path, role_id.as_str());
        Ok(ApiRequest::new(HttpMethod::Get, path, RequestBody::Empty))
    }

    pub fn list(&self, project_id: &str, user_id: &str, params: AdminQueryParams) -> (r: Result<ApiRequest, OpenAIError>)
        ensures
            r is Ok <==> (!is_blank_spec(project_id@) && !is_blank_spec(user_id@)),
            r matches Ok(req) ==> req@ == plain(HttpMethod::Get, with_query("/projects/"@ + encoded_id(project_id@) + "/users/"@ + encoded_id(user_id@) + "/roles"@, form_query(params@), params@.len() > 0), BodyView::Empty),
            r matches Err(e) ==> e.kind == ErrorKind::Validation && e.message@ == blank_message(if is_blank_spec(project_id@) { "project_id"@ } else { "user_id"@ }),
    {
        let project_id = path_id("project_id", project_id)?;
        let user_id = path_id("user_id", user_id)?;
        let mut path = "/projects/".to_string();
        push_str(&mut path, project_id.as_str());
        push_str(&mut path, "/users/");
        push_str(&mut path, user_id.as_str());
        push_str(&mut path, "/roles");
        let path = path_with_query(path, params.pairs());
        Ok(ApiRequest::new(HttpMethod::Get, path, RequestBody::Empty))
    }

    pub fn delete(&self, project_id: &str, user_id: &str, role_id: &str) -> (r: Result<ApiRequest, OpenAIError>)
        ensures
            r is Ok <==> (!is_blank_spec(project_id@) && !is_blank_spec(user_id@) && !is_blank_spec(role_id@)),
            r matches Ok(req) ==> req@ == plain(HttpMethod::Delete, "/projects/"@ + encoded_id(project_id@) + "/users/"@ + encoded_id(user_id@) + "/roles/"@ + encoded_id(role_id@), BodyView::Empty),
            r matches Err(e) ==> e.kind == ErrorKind::Validation && e.message@ == blank_message(if is_blank_spec(project_id@) { "project_id"@ } else { if is_blank_spec(user_id@) { "user_id"@ } else { "role_id"@ } }),
    {
        let project_id = path_id("project_id", project_id)?;
        let user_id = path_id("user_id", user_id)?;
        let role_id = path_id("role_id", role_id)?;
        let mut path = "/projects/".to_string();
        push_str(&mut path, project_id.as_str());
        push_str(&mut path, "/users/");
        push_str(&mut path, user_id.as_str());
        push_str(&mut path, "/roles/");
        push_str(&mut path, role_id.as_str());
        Ok(ApiRequest::new(HttpMethod::Delete, path, RequestBody::Empty))
    }

}

/// Project service account endpoints.
#[derive(Clone, Copy, Debug)]
pub struct ProjectServiceAccounts {}

impl ProjectServiceAccounts {
    pub fn new() -> ProjectServiceAccounts {
        ProjectServiceAccounts {}
    }

    pub fn create(&self, project_id: &str, body: String) -> (r: Result<ApiRequest, OpenAIError>)
        ensures
            r is Ok <==> (!is_blank_spec(project_id@)),
            r matches Ok(req) ==> req@ == plain(HttpMethod::Post, "/organization/projects/"@ + encoded_id(project_id@) + "/service_accounts"@, BodyView::Json(body@)),
            r matches Err(e) ==> e.kind == ErrorKind::Validation && e.message@ == blank_message("project_id"@),
    {
        let project_id = path_id("project_id", project_id)?;
        let mut path = "/organization/projects/".to_string();
        push_str(&mut path, project_id.as_str());
        push_str(&mut path, "/service_accounts");
        Ok(ApiRequest::new(HttpMethod::Post, path, RequestBody::Json(body)))
    }

    pub fn retrieve(&self, project_id: &str, service_account_id: &str) -> (r: Result<ApiRequest, OpenAIError>)
        ensures
            r is Ok <==> (!is_blank_spec(project_id@) && !is_blank_spec(service_account_id@)),
            r matches Ok(req) ==> req@ == plain(HttpMethod::Get, "/organization/projects/"@ + encoded_id(project_id@) + "/service_accounts/"@ + encoded_id(service_account_id@), BodyView::Empty),
            r matches Err(e) ==> e.kind == ErrorKind::Validation && e.message@ == blank_message(if is_blank_spec(project_id@) { "project_id"@ } else { "service_account_id"@ }),
    {
        let project_id = path_id("project_id", project_id)?;
        let service_account_id = path_id("service_account_id", service_account_id)?;
        let mut path = "/organization/projects/".to_string();
        push_str(&mut path, project_id.as_str());
        push_str(&mut path, "/service_accounts/");
        push_str(&mut path, service_account_id.as_str());
        Ok(ApiRequest::new(HttpMethod::Get, path, RequestBody::Empty))
    }

    pub fn update(&self, project_id: &str, service_account_id: &str, body: String) -> (r: Result<ApiRequest, OpenAIError>)
        ensures
            r is Ok <==> (!is_blank_spec(project_id@) && !is_blank_spec(service_account_id@)),
            r matches Ok(req) ==> req@ == plain(HttpMethod::Post, "/organization/projects/"@ + encoded_id(project_id@) + "/service_accounts/"@ + encoded_id(service_account_id@), BodyView::Json(body@)),
            r matches Err(e) ==> e.kind == ErrorKind::Validation && e.message@ == blank_message(if is_blank_spec(project_id@) { "project_id"@ } else { "service_account_id"@ }),
    {
        let project_id = path_id("project_id", project_id)?;
        let service_account_id = path_id("service_account_id", service_account_id)?;
        let mut path = "/organization/projects/".to_string();
        push_str(&mut path, project_id.as_str());
        push_str(&mut path, "/service_accounts/");
        push_str(&mut path, service_account_id.as_str());
        Ok(ApiRequest::new(HttpMethod::Post, path, RequestBody::Json(body)))
    }

    pub fn list(&self, project_id: &str, params: AdminQueryParams) -> (r: Result<ApiRequest, OpenAIError>)
        ensures
            r is Ok <==> (!is_blank_spec(project_id@)),
            r matches Ok(req) ==> req@ == plain(HttpMethod::Get, with_query("/organization/projects/"@ + encoded_id(project_id@) + "/service_accounts"@, form_query(params@), params@.len() > 0), BodyView::Empty),
            r matches Err(e) ==> e.kind == ErrorKind::Validation && e.message@ == blank_message("project_id"@),
    {
        let project_id = path_id("project_id", project_id)?;
        let mut path = "/organization/projects/".to_string();
        push_str(&mut path, project_id.as_str());
        push_str(&mut path, "/service_accounts");
        let path = path_with_query(path, params.pairs());
        Ok(ApiRequest::new(HttpMethod::Get, path, RequestBody::Empty))
    }

    pub fn delete(&self, project_id: &str, service_account_id: &str) -> (r: Result<ApiRequest, OpenAIError>)
        ensures
            r is Ok <==> (!is_blank_spec(project_id@) && !is_blank_spec(service_account_id@)),
            r matches Ok(req) ==> req@ == plain(HttpMethod::Delete, "/organization/projects/"@ + encoded_id(project_id@) + "/service_accounts/"@ + encoded_id(service_account_id@), BodyView::Empty),
            r matches Err(e) ==> e.kind == ErrorKind::Validation && e.message@ == blank_message(if is_blank_spec(project_id@) { "project_id"@ } else { "service_account_id"@ }),
    {
        let project_id = path_id("project_id", project_id)?;
        let service_account_id = path_id("service_account_id", service_account_id)?;
        let mut path = "/organization/projects/".to_string();
        push_str(&mut path, project_id.as_str());
        push_str(&mut path, "/service_accounts/");
        push_str(&mut path, service_account_id.as_str());
        Ok(ApiRequest::new(HttpMethod::Delete, path, RequestBody::Empty))
    }

}

/// Project API key endpoints.
#[derive(Clone, Copy, Debug)]
pub struct ProjectApiKeys {}

impl ProjectApiKeys {
    pub fn new() -> ProjectApiKeys {
        ProjectApiKeys {}
    }

    pub fn retrieve(&self, project_id: &str, api_key_id: &str) -> (r: Result<ApiRequest, OpenAIError>)
        ensures
            r is Ok <==> (!is_blank_spec(project_id@) && !is_blank_spec(api_key_id@)),
            r matches Ok(req) ==> req@ == plain(HttpMethod::Get, "/organization/projects/"@ + encoded_id(project_id@) + "/api_keys/"@ + encoded_id(api_key_id@), BodyView::Empty),
            r matches Err(e) ==> e.kind == ErrorKind::Validation && e.message@ == blank_message(if is_blank_spec(project_id@) { "project_id"@ } else { "api_key_id"@ }),
    {
        let project_id = path_id("project_id", project_id)?;
        let api_key_id = path_id("api_key_id", api_key_id)?;
        let mut path = "/organization/projects/".to_string();
        push_str(&mut path, project_id.as_str());
        push_str(&mut path, "/api_keys/");
        push_str(&mut path, api_key_id.as_str());
        Ok(ApiRequest::new(HttpMethod::Get, path, RequestBody::Empty))
    }

    pub fn list(&self, project_id: &str, params: AdminQueryParams) -> (r: Result<ApiRequest, OpenAIError>)
        ensures
            r is Ok <==> (!is_blank_spec(project_id@)),
            r matches Ok(req) ==> req@ == plain(HttpMethod::Get, with_query("/organization/projects/"@ + encoded_id(project_id@) + "/api_keys"@, form_query(params@), params@.len() > 0), BodyView::Empty),
            r matches Err(e) ==> e.kind == ErrorKind::Validation && e.message@ == blank_message("project_id"@),
    {
        let project_id = path_id("project_id", project_id)?;
        let mut path = "/organization/projects/".to_string();
        push_str(&mut path, project_id.as_str());
        push_str(&mut path, "/api_keys");
        let path = path_with_query(path, params.pairs());
        Ok(ApiRequest::new(HttpMethod::Get, path, RequestBody::Empty))
    }

    pub fn delete(&self, project_id: &str, api_key_id: &str) -> (r: Result<ApiRequest, OpenAIError>)
        ensures
            r is Ok <==> (!is_blank_spec(project_id@) && !is_blank_spec(api_key_id@)),
            r matches Ok(req) ==> req@ == plain(HttpMethod::Delete, "/organization/projects/"@ + encoded_id(project_id@) + "/api_keys/"@ + encoded_id(api_key_id@), BodyView::Empty),
            r matches Err(e) ==> e.kind == ErrorKind::Validation && e.message@ == blank_message(if is_blank_spec(project_id@) { "project_id"@ } else { "api_key_id"@ }),
    {
        let project_id = path_id("project_id", project_id)?;
        let api_key_id = path_id("api_key_id", api_key_id)?;
        let mut path = "/organization/projects/".to_string();
        push_str(&mut path, project_id.as_str());
        push_str(&mut path, "/api_keys/");
        push_str(&mut path, api_key_id.as_str());
        Ok(ApiRequest::new(HttpMethod::Delete, path, RequestBody::Empty))
    }

}

/// Project rate-limit endpoints.
#[derive(Clone, Copy, Debug)]
pub struct ProjectRateLimits {}

impl ProjectRateLimits {
    pub fn new() -> ProjectRateLimits {
        ProjectRateLimits {}
    }

    pub fn list_rate_limits(&self, project_id: &str, params: AdminQueryParams) -> (r: Result<ApiRequest, OpenAIError>)
        ensures
            r is Ok <==> (!is_blank_spec(project_id@)),
            r matches Ok(req) ==> req@ == plain(HttpMethod::Get, with_query("/organization/projects/"@ + encoded_id(project_id@) + "/rate_limits"@, form_query(params@), params@.len() > 0), BodyView::Empty),
            r matches Err(e) ==> e.kind == ErrorKind::Validation && e.message@ == blank_message("project_id"@),
    {
        let project_id = path_id("project_id", project_id)?;
        let mut path = "/organization/projects/".to_string();
        push_str(&mut path, project_id.as_str());
        push_str(&mut path, "/rate_limits");
        let path = path_with_query(path, params.pairs());
        Ok(ApiRequest::new(HttpMethod::Get, path, RequestBody::Empty))
    }

    pub fn update_rate_limit(&self, project_id: &str, rate_limit_id: &str, body: String) -> (r: Result<ApiRequest, OpenAIError>)
        ensures
            r is Ok <==> (!is_blank_spec(project_id@) && !is_blank_spec(rate_limit_id@)),
            r matches Ok(req) ==> req@ == plain(HttpMethod::Post, "/organization/projects/"@ + encoded_id(project_id@) + "/rate_limits/"@ + encoded_id(rate_limit_id@), BodyView::Json(body@)),
            r matches Err(e) ==> e.kind == ErrorKind::Validation && e.message@ == blank_message(if is_blank_spec(project_id@) { "project_id"@ } else { "rate_limit_id"@ }),
    {
        let project_id = path_id("project_id", project_id)?;
        let rate_limit_id = path_id("rate_limit_id", rate_limit_id)?;
        let mut path = "/organization/projects/".to_string();
        push_str(&mut path, project_id.as_str());
        push_str(&mut path, "/rate_limits/");
        push_str(&mut path, rate_limit_id.as_str());
        Ok(ApiRequest::new(HttpMethod::Post, path, RequestBody::Json(body)))
    }

}

/// Project model-permission endpoints.
#[derive(Clone, Copy, Debug)]
pub struct ProjectModelPermissions {}

impl ProjectModelPermissions {
    pub fn new() -> ProjectModelPermissions {
        ProjectModelPermissions {}
    }

    pub fn retrieve(&self, project_id: &str) -> (r: Result<ApiRequest, OpenAIError>)
        ensures
            r is Ok <==> (!is_blank_spec(project_id@)),
            r matches Ok(req) ==> req@ == plain(HttpMethod::Get, "/organization/projects/"@ + encoded_id(project_id@) + "/model_permissions"@, BodyView::Empty),
            r matches Err(e) ==> e.kind == ErrorKind::Validation && e.message@ == blank_message("project_id"@),
    {
        let project_id = path_id("project_id", project_id)?;
        let mut path = "/organization/projects/".to_string();
        push_str(&mut path, project_id.as_str());
        push_str(&mut path, "/model_permissions");
        Ok(ApiRequest::new(HttpMethod::Get, path, RequestBody::Empty))
    }

    pub fn update(&self, project_id: &str, body: String) -> (r: Result<ApiRequest, OpenAIError>)
        ensures
            r is Ok <==> (!is_blank_spec(project_id@)),
            r matches Ok(req) ==> req@ == plain(HttpMethod::Post, "/organization/projects/"@ + encoded_id(project_id@) + "/model_permissions"@, BodyView::Json(body@)),
            r matches Err(e) ==> e.kind == ErrorKind::Validation && e.message@ == blank_message("project_id"@),
    {
        let project_id = path_id("project_id", project_id)?;
        let mut path = "/organization/projects/".to_string();
        push_str(&mut path, project_id.as_str());
        push_str(&mut path, "/model_permissions");
        Ok(ApiRequest::new(HttpMethod::Post, path, RequestBody::Json(body)))
    }

    pub fn delete(&self, project_id: &str) -> (r: Result<ApiRequest, OpenAIError>)
        ensures
            r is Ok <==> (!is_blank_spec(project_id@)),
            r matches Ok(req) ==> req@ == plain(HttpMethod::Delete, "/organization/projects/"@ + encoded_id(project_id@) + "/model_permissions"@, BodyView::Empty),
            r matches Err(e) ==> e.kind == ErrorKind::Validation && e.message@ == blank_message("project_id"@),
    {
        let project_id = path_id("project_id", project_id)?;
        let mut path = "/organization/projects/".to_string();
        push_str(&mut path, project_id.as_str());
        push_str(&mut path, "/model_permissions");
        Ok(ApiRequest::new(HttpMethod::Delete, path, RequestBody::Empty))
    }

}

/// Project hosted-tool permission endpoints.
#[derive(Clone, Copy, Debug)]
pub struct ProjectHostedToolPermissions {}

impl ProjectHostedToolPermissions {
    pub fn new() -> ProjectHostedToolPermissions {
        ProjectHostedToolPermissions {}
    }

    pub fn retrieve(&self, project_id: &str) -> (r: Result<ApiRequest, OpenAIError>)
        ensures
            r is Ok <==> (!is_blank_spec(project_id@)),
            r matches Ok(req) ==> req@ == plain(HttpMethod::Get, "/organization/projects/"@ + encoded_id(project_id@) + "/hosted_tool_permissions"@, BodyView::Empty),
            r matches Err(e) ==> e.kind == ErrorKind::Validation && e.message@ == blank_message("project_id"@),
    {
        let project_id = path_id("project_id", project_id)?;
        let mut path = "/organization/projects/".to_string();
        push_str(&mut path, project_id.as_str());
        push_str(&mut path, "/hosted_tool_permissions");
        Ok(ApiRequest::new(HttpMethod::Get, path, RequestBody::Empty))
    }

    pub fn update(&self, project_id: &str, body: String) -> (r: Result<ApiRequest, OpenAIError>)
        ensures
            r is Ok <==> (!is_blank_spec(project_id@)),
            r matches Ok(req) ==> req@ == plain(HttpMethod::Post, "/organization/projects/"@ + encoded_id(project_id@) + "/hosted_tool_permissions"@, BodyView::Json(body@)),
            r matches Err(e) ==> e.kind == ErrorKind::Validation && e.message@ == blank_message("project_id"@),
    {
        let project_id = path_id("project_id", project_id)?;
        let mut path = "/organization/projects/".to_string();
        push_str(&mut path, project_id.as_str());
        push_str(&mut path, "/hosted_tool_permissions");
        Ok(ApiRequest::new(HttpMethod::Post, path, RequestBody::Json(body)))
    }

}

/// Project group endpoints.
#[derive(Clone, Copy, Debug)]
pub struct ProjectGroups {}

impl ProjectGroups {
    pub fn new() -> ProjectGroups {
        ProjectGroups {}
    }

    pub fn roles(&self) -> ProjectGroupRoles {
        ProjectGroupRoles::new()
    }

    pub fn create(&self, project_id: &str, body: String) -> (r: Result<ApiRequest, OpenAIError>)
        ensures
            r is Ok <==> (!is_blank_spec(project_id@)),
            r matches Ok(req) ==> req@ == plain(HttpMethod::Post, "/organization/projects/"@ + encoded_id(project_id@) + "/groups"@, BodyView::Json(body@)),
            r matches Err(e) ==> e.kind == ErrorKind::Validation && e.message@ == blank_message("project_id"@),
    {
        let project_id = path_id("project_id", project_id)?;
        let mut path = "/organization/projects/".to_string();
        push_str(&mut path, project_id.as_str());
        push_str(&mut path, "/groups");
        Ok(ApiRequest::new(HttpMethod::Post, path, RequestBody::Json(body)))
    }

    pub fn retrieve(&self, project_id: &str, group_id: &str, params: AdminQueryParams) -> (r: Result<ApiRequest, OpenAIError>)
        ensures
            r is Ok <==> (!is_blank_spec(project_id@) && !is_blank_spec(group_id@)),
            r matches Ok(req) ==> req@ == plain(HttpMethod::Get, with_query("/organization/projects/"@ + encoded_id(project_id@) + "/groups/"@ + encoded_id(group_id@), form_query(params@), params@.len() > 0), BodyView::Empty),
            r matches Err(e) ==> e.kind == ErrorKind::Validation && e.message@ == blank_message(if is_blank_spec(project_id@) { "project_id"@ } else { "group_id"@ }),
    {
        let project_id = path_id("project_id", project_id)?;
        let group_id = path_id("group_id", group_id)?;
        let mut path = "/organization/projects/".to_string();
        push_str(&mut path, project_id.as_str());
        push_str(&mut path, "/groups/");
        push_str(&mut path, group_id.as_str());
        let path = path_with_query(path, params.pairs());
        Ok(ApiRequest::new(HttpMethod::Get, path, RequestBody::Empty))
    }

    pub fn list(&self, project_id: &str, params: AdminQueryParams) -> (r: Result<ApiRequest, OpenAIError>)
        ensures
            r is Ok <==> (!is_blank_spec(project_id@)),
            r matches Ok(req) ==> req@ == plain(HttpMethod::Get, with_query("/organization/projects/"@ + encoded_id(project_id@) + "/groups"@, form_query(params@), params@.len() > 0), BodyView::Empty),
            r matches Err(e) ==> e.kind == ErrorKind::Validation && e.message@ == blank_message("project_id"@),
    {
        let project_id = path_id("project_id", project_id)?;
        let mut path = "/organization/projects/".to_string();
        push_str(&mut path, project_id.as_str());
        push_str(&mut path, "/groups");
        let path = path_with_query(path, params.pairs());
        Ok(ApiRequest::new(HttpMethod::Get, path, RequestBody::Empty))
    }

    pub fn delete(&self, project_id: &str, group_id: &str) -> (r: Result<ApiRequest, OpenAIError>)
        ensures
            r is Ok <==> (!is_blank_spec(project_id@) && !is_blank_spec(group_id@)),
            r matches Ok(req) ==> req@ == plain(HttpMethod::Delete, "/organization/projects/"@ + encoded_id(project_id@) + "/groups/"@ + encoded_id(group_id@), BodyView::Empty),
            r matches Err(e) ==> e.kind == ErrorKind::Validation && e.message@ == blank_message(if is_blank_spec(project_id@) { "project_id"@ } else { "group_id"@ }),
    {
        let project_id = path_id("project_id", project_id)?;
        let group_id = path_id("group_id", group_id)?;
        let mut path = "/organization/projects/".to_string();
        push_str(&mut path, project_id.as_str());
        push_str(&mut path, "/groups/");
        push_str(&mut path, group_id.as_str());
        Ok(ApiRequest::new(HttpMethod::Delete, path, RequestBody::Empty))
    }

}

/// Project group role endpoints.
#[derive(Clone, Copy, Debug)]
pub struct ProjectGroupRoles {}

impl ProjectGroupRoles {
    pub fn new() -> ProjectGroupRoles {
        ProjectGroupRoles {}
    }

    pub fn create(&self, project_id: &str, group_id: &str, body: String) -> (r: Result<ApiRequest, OpenAIError>)
        ensures
            r is Ok <==> (!is_blank_spec(project_id@) && !is_blank_spec(group_id@)),
            r matches Ok(req) ==> req@ == plain(HttpMethod::Post, "/projects/"@ + encoded_id(project_id@) + "/groups/"@ + encoded_id(group_id@) + "/roles"@, BodyView::Json(body@)),
            r matches Err(e) ==> e.kind == ErrorKind::Validation && e.message@ == blank_message(if is_blank_spec(project_id@) { "project_id"@ } else { "group_id"@ }),
    {
        let project_id = path_id("project_id", project_id)?;
        let group_id = path_id("group_id", group_id)?;
        let mut path = "/projects/".to_string();
        push_str(&mut path, project_id.as_str());
        push_str(&mut path, "/groups/");
        push_str(&mut path, group_id.as_str());
        push_str(&mut path, "/roles");
        Ok(ApiRequest::new(HttpMethod::Post, path, RequestBody::Json(body)))
    }

    pub fn retrieve(&self, project_id: &str, group_id: &str, role_id: &str) -> (r: Result<ApiRequest, OpenAIError>)
        ensures
            r is Ok <==> (!is_blank_spec(project_id@) && !is_blank_spec(group_id@) && !is_blank_spec(role_id@)),
            r matches Ok(req) ==> req@ == plain(HttpMethod::Get, "/projects/"@ + encoded_id(project_id@) + "/groups/"@ + encoded_id(group_id@) + "/roles/"@ + encoded_id(role_id@), BodyView::Empty),
            r matches Err(e) ==> e.kind == ErrorKind::Validation && e.message@ == blank_message(if is_blank_spec(project_id@) { "project_id"@ } else { if is_blank_spec(group_id@) { "group_id"@ } else { "role_id"@ } }),
    {
        let project_id = path_id("project_id", project_id)?;
        let group_id = path_id("group_id", group_id)?;
        let role_id = path_id("role_id", role_id)?;
        let mut path = "/projects/".to_string();
        push_str(&mut path, project_id.as_str());
        push_str(&mut path, "/groups/");
        push_str(&mut path, group_id.as_str());
        push_str(&mut path, "/roles/");
        push_str(&mut path, role_id.as_str());
        Ok(ApiRequest::new(HttpMethod::Get, path, RequestBody::Empty))
    }

    pub fn list(&self, project_id: &str, group_id: &str, params: AdminQueryParams) -> (r: Result<ApiRequest, OpenAIError>)
        ensures
            r is Ok <==> (!is_blank_spec(project_id@) && !is_blank_spec(group_id@)),
            r matches Ok(req) ==> req@ == plain(HttpMethod::Get, with_query("/projects/"@ + encoded_id(project_id@) + "/groups/"@ + encoded_id(group_id@) + "/roles"@, form_query(params@), params@.len() > 0), BodyView::Empty),
            r matches Err(e) ==> e.kind == ErrorKind::Validation && e.message@ == blank_message(if is_blank_spec(project_id@) { "project_id"@ } else { "group_id"@ }),
    {
        let project_id = path_id("project_id", project_id)?;
        let group_id = path_id("group_id", group_id)?;
        let mut path = "/projects/".to_string();
        push_str(&mut path, project_id.as_str());
        push_str(&mut path, "/groups/");
        push_str(&mut path, group_id.as_str());
        push_str(&mut path, "/roles");
        let path = path_with_query(path, params.pairs());
        Ok(ApiRequest::new(HttpMethod::Get, path, RequestBody::Empty))
    }

    pub fn delete(&self, project_id: &str, group_id: &str, role_id: &str) -> (r: Result<ApiRequest, OpenAIError>)
        ensures
            r is Ok <==> (!is_blank_spec(project_id@) && !is_blank_spec(group_id@) && !is_blank_spec(role_id@)),
            r matches Ok(req) ==> req@ == plain(HttpMethod::Delete, "/projects/"@ + encoded_id(project_id@) + "/groups/"@ + encoded_id(group_id@) + "/roles/"@ + encoded_id(role_id@), BodyView::Empty),
            r matches Err(e) ==> e.kind == ErrorKind::Validation && e.message@ == blank_message(if is_blank_spec(project_id@) { "project_id"@ } else { if is_blank_spec(group_id@) { "group_id"@ } else { "role_id"@ } }),
    {
        let project_id = path_id("project_id", project_id)?;
        let group_id = path_id("group_id", group_id)?;
        let role_id = path_id("role_id", role_id)?;
        let mut path = "/projects/".to_string();
        push_str(&mut path, project_id.as_str());
        push_str(&mut path, "/groups/");
        push_str(&mut path, group_id.as_str());
        push_str(&mut path, "/roles/");
        push_str(&mut path, role_id.as_str());
        Ok(ApiRequest::new(HttpMethod::Delete, path, RequestBody::Empty))
    }

}

/// Project role endpoints.
#[derive(Clone, Copy, Debug)]
pub struct ProjectRoles {}

impl ProjectRoles {
    pub fn new() -> ProjectRoles {
        ProjectRoles {}
    }

    pub fn create(&self, project_id: &str, body: String) -> (r: Result<ApiRequest, OpenAIError>)
        ensures
            r is Ok <==> (!is_blank_spec(project_id@)),
            r matches Ok(req) ==> req@ == plain(HttpMethod::Post, "/projects/"@ + encoded_id(project_id@) + "/roles"@, BodyView::Json(body@)),
            r matches Err(e) ==> e.kind == ErrorKind::Validation && e.message@ == blank_message("project_id"@),
    {
        let project_id = path_id("project_id", project_id)?;
        let mut path = "/projects/".to_string();
        push_str(&mut path, project_id.as_str());
        push_str(&mut path, "/roles");
        Ok(ApiRequest::new(HttpMethod::Post, path, RequestBody::Json(body)))
    }

    pub fn retrieve(&self, project_id: &str, role_id: &str) -> (r: Result<ApiRequest, OpenAIError>)
        ensures
            r is Ok <==> (!is_blank_spec(project_id@) && !is_blank_spec(role_id@)),
            r matches Ok(req) ==> req@ == plain(HttpMethod::Get, "/projects/"@ + encoded_id(project_id@) + "/roles/"@ + encoded_id(role_id@), BodyView::Empty),
            r matches Err(e) ==> e.kind == ErrorKind::Validation && e.message@ == blank_message(if is_blank_spec(project_id@) { "project_id"@ } else { "role_id"@ }),
    {
        let project_id = path_id("project_id", project_id)?;
        let role_id = path_id("role_id", role_id)?;
        let mut path = "/projects/".to_string();
        push_str(&mut path, project_id.as_str());
        push_str(&mut path, "/roles/");
        push_str(&mut path, role_id.as_str());
        Ok(ApiRequest::new(HttpMethod::Get, path, RequestBody::Empty))
    }

    pub fn update(&self, project_id: &str, role_id: &str, body: String) -> (r: Result<ApiRequest, OpenAIError>)
        ensures
            r is Ok <==> (!is_blank_spec(project_id@) && !is_blank_spec(role_id@)),
            r matches Ok(req) ==> req@ == plain(HttpMethod::Post, "/projects/"@ + encoded_id(project_id@) + "/roles/"@ + encoded_id(role_id@), BodyView::Json(body@)),
            r matches Err(e) ==> e.kind == ErrorKind::Validation && e.message@ == blank_message(if is_blank_spec(project_id@) { "project_id"@ } else { "role_id"@ }),
    {
        let project_id = path_id("project_id", project_id)?;
        let role_id = path_id("role_id", role_id)?;
        let mut path = "/projects/".to_string();
        push_str(&mut path, project_id.as_str());
        push_str(&mut path, "/roles/");
        push_str(&mut path, role_id.as_str());
        Ok(ApiRequest::new(HttpMethod::Post, path, RequestBody::Json(body)))
    }

    pub fn list(&self, project_id: &str, params: AdminQueryParams) -> (r: Result<ApiRequest, OpenAIError>)
        ensures
            r is Ok <==> (!is_blank_spec(project_id@)),
            r matches Ok(req) ==> req@ == plain(HttpMethod::Get, with_query("/projects/"@ + encoded_id(project_id@) + "/roles"@, form_query(params@), params@.len() > 0), BodyView::Empty),
            r matches Err(e) ==> e.kind == ErrorKind::Validation && e.message@ == blank_message("project_id"@),
    {
        let project_id = path_id("project_id", project_id)?;
        let mut path = "/projects/".to_string();
        push_str(&mut path, project_id.as_str());
        push_str(&mut path, "/roles");
        let path = path_with_query(path, params.pairs());
        Ok(ApiRequest::new(HttpMethod::Get, path, RequestBody::Empty))
    }

    pub fn delete(&self, project_id: &str, role_id: &str) -> (r: Result<ApiRequest, OpenAIError>)
        ensures
            r is Ok <==> (!is_blank_spec(project_id@) && !is_blank_spec(role_id@)),
            r matches Ok(req) ==> req@ == plain(HttpMethod::Delete, "/projects/"@ + encoded_id(project_id@) + "/roles/"@ + encoded_id(role_id@), BodyView::Empty),
            r matches Err(e) ==> e.kind == ErrorKind::Validation && e.message@ == blank_message(if is_blank_spec(project_id@) { "project_id"@ } else { "role_id"@ }),
    {
        let project_id = path_id("project_id", project_id)?;
        let role_id = path_id("role_id", role_id)?;
        let mut path = "/projects/".to_string();
        push_str(&mut path, project_id.as_str());
        push_str(&mut path, "/roles/");
        push_str(&mut path, role_id.as_str());
        Ok(ApiRequest::new(HttpMethod::Delete, path, RequestBody::Empty))
    }

}

/// Project data-retention endpoints.
#[derive(Clone, Copy, Debug)]
pub struct ProjectDataRetention {}

impl ProjectDataRetention {
    pub fn new() -> ProjectDataRetention {
        ProjectDataRetention {}
    }

    pub fn retrieve(&self, project_id: &str) -> (r: Result<ApiRequest, OpenAIError>)
        ensures
            r is Ok <==> (!is_blank_spec(project_id@)),
            r matches Ok(req) ==> req@ == plain(HttpMethod::Get, "/organization/projects/"@ + encoded_id(project_id@) + "/data_retention"@, BodyView::Empty),
            r matches Err(e) ==> e.kind == ErrorKind::Validation && e.message@ == blank_message("project_id"@),
    {
        let project_id = path_id("project_id", project_id)?;
        let mut path = "/organization/projects/".to_string();
        push_str(&mut path, project_id.as_str());
        push_str(&mut path, "/data_retention");
        Ok(ApiRequest::new(HttpMethod::Get, path, RequestBody::Empty))
    }

    pub fn update(&self, project_id: &str, body: String) -> (r: Result<ApiRequest, OpenAIError>)
        ensures
            r is Ok <==> (!is_blank_spec(project_id@)),
            r matches Ok(req) ==> req@ == plain(HttpMethod::Post, "/organization/projects/"@ + encoded_id(project_id@) + "/data_retention"@, BodyView::Json(body@)),
            r matches Err(e) ==> e.kind == ErrorKind::Validation && e.message@ == blank_message("project_id"@),
    {
        let project_id = path_id("project_id", project_id)?;
        let mut path = "/organization/projects/".to_string();
        push_str(&mut path, project_id.as_str());
        push_str(&mut path, "/data_retention");
        Ok(ApiRequest::new(HttpMethod::Post, path, RequestBody::Json(body)))
    }

}

/// Project spend-alert endpoints.
#[derive(Clone, Copy, Debug)]
pub struct ProjectSpendAlerts {}

impl ProjectSpendAlerts {
    pub fn new() -> ProjectSpendAlerts {
        ProjectSpendAlerts {}
    }

    pub fn create(&self, project_id: &str, body: String) -> (r: Result<ApiRequest, OpenAIError>)
        ensures
            r is Ok <==> (!is_blank_spec(project_id@)),
            r matches Ok(req) ==> req@ == plain(HttpMethod::Post, "/organization/projects/"@ + encoded_id(project_id@) + "/spend_alerts"@, BodyView::Json(body@)),
            r matches Err(e) ==> e.kind == ErrorKind::Validation && e.message@ == blank_message("project_id"@),
    {
        let project_id = path_id("project_id", project_id)?;
        let mut path = "/organization/projects/".to_string();
        push_str(&mut path, project_id.as_str());
        push_str(&mut path, "/spend_alerts");
        Ok(ApiRequest::new(HttpMethod::Post, path, RequestBody::Json(body)))
    }

    pub fn update(&self, project_id: &str, alert_id: &str, body: String) -> (r: Result<ApiRequest, OpenAIError>)
        ensures
            r is Ok <==> (!is_blank_spec(project_id@) && !is_blank_spec(alert_id@)),
            r matches Ok(req) ==> req@ == plain(HttpMethod::Post, "/organization/projects/"@ + encoded_id(project_id@) + "/spend_alerts/"@ + encoded_id(alert_id@), BodyView::Json(body@)),
            r matches Err(e) ==> e.kind == ErrorKind::Validation && e.message@ == blank_message(if is_blank_spec(project_id@) { "project_id"@ } else { "alert_id"@ }),
    {
        let project_id = path_id("project_id", project_id)?;
        let alert_id = path_id("alert_id", alert_id)?;
        let mut path = "/organization/projects/".to_string();
        push_str(&mut path, project_id.as_str());
        push_str(&mut path, "/spend_alerts/");
        push_str(&mut path, alert_id.as_str());
        Ok(ApiRequest::new(HttpMethod::Post, path, RequestBody::Json(body)))
    }

    pub fn list(&self, project_id: &str, params: AdminQueryParams) -> (r: Result<ApiRequest, OpenAIError>)
        ensures
            r is Ok <==> (!is_blank_spec(project_id@)),
            r matches Ok(req) ==> req@ == plain(HttpMethod::Get, with_query("/organization/projects/"@ + encoded_id(project_id@) + "/spend_alerts"@, form_query(params@), params@.len() > 0), BodyView::Empty),
            r matches Err(e) ==> e.kind == ErrorKind::Validation && e.message@ == blank_message("project_id"@),
    {
        let project_id = path_id("project_id", project_id)?;
        let mut path = "/organization/projects/".to_string();
        push_str(&mut path, project_id.as_str());
        push_str(&mut path, "/spend_alerts");
        let path = path_with_query(path, params.pairs());
        Ok(ApiRequest::new(HttpMethod::Get, path, RequestBody::Empty))
    }

    pub fn delete(&self, project_id: &str, alert_id: &str) -> (r: Result<ApiRequest, OpenAIError>)
        ensures
            r is Ok <==> (!is_blank_spec(project_id@) && !is_blank_spec(alert_id@)),
            r matches Ok(req) ==> req@ == plain(HttpMethod::Delete, "/organization/projects/"@ + encoded_id(project_id@) + "/spend_alerts/"@ + encoded_id(alert_id@), BodyView::Empty),
            r matches Err(e) ==> e.kind == ErrorKind::Validation && e.message@ == blank_message(if is_blank_spec(project_id@) { "project_id"@ } else { "alert_id"@ }),
    {
        let project_id = path_id("project_id", project_id)?;
        let alert_id = path_id("alert_id", alert_id)?;
        let mut path = "/organization/projects/".to_string();
        push_str(&mut path, project_id.as_str());
        push_str(&mut path, "/spend_alerts/");
        push_str(&mut path, alert_id.as_str());
        Ok(ApiRequest::new(HttpMethod::Delete, path, RequestBody::Empty))
    }

}

/// Project certificate endpoints.
#[derive(Clone, Copy, Debug)]
pub struct ProjectCertificates {}

impl ProjectCertificates {
    pub fn new() -> ProjectCertificates {
        ProjectCertificates {}
    }

    pub fn list(&self, project_id: &str, params: AdminQueryParams) -> (r: Result<ApiRequest, OpenAIError>)
        ensures
            r is Ok <==> (!is_blank_spec(project_id@)),
            r matches Ok(req) ==> req@ == plain(HttpMethod::Get, with_query("/organization/projects/"@ + encoded_id(project_id@) + "/certificates"@, form_query(params@), params@.len() > 0), BodyView::Empty),
            r matches Err(e) ==> e.kind == ErrorKind::Validation && e.message@ == blank_message("project_id"@),
    {
        let project_id = path_id("project_id", project_id)?;
        let mut path = "/organization/projects/".to_string();
        push_str(&mut path, project_id.as_str());
        push_str(&mut path, "/certificates");
        let path = path_with_query(path, params.pairs());
        Ok(ApiRequest::new(HttpMethod::Get, path, RequestBody::Empty))
    }

    pub fn activate(&self, project_id: &str, body: String) -> (r: Result<ApiRequest, OpenAIError>)
        ensures
            r is Ok <==> (!is_blank_spec(project_id@)),
            r matches Ok(req) ==> req@ == plain(HttpMethod::Post, "/organization/projects/"@ + encoded_id(project_id@) + "/certificates/activate"@, BodyView::Json(body@)),
            r matches Err(e) ==> e.kind == ErrorKind::Validation && e.message@ == blank_message("project_id"@),
    {
        let project_id = path_id("project_id", project_id)?;
        let mut path = "/organization/projects/".to_string();
        push_str(&mut path, project_id.as_str());
        push_str(&mut path, "/certificates/activate");
        Ok(ApiRequest::new(HttpMethod::Post, path, RequestBody::Json(body)))
    }

    pub fn deactivate(&self, project_id: &str, body: String) -> (r: Result<ApiRequest, OpenAIError>)
        ensures
            r is Ok <==> (!is_blank_spec(project_id@)),
            r matches Ok(req) ==> req@ == plain(HttpMethod::Post, "/organization/projects/"@ + encoded_id(project_id@) + "/certificates/deactivate"@, BodyView::Json(body@)),
            r matches Err(e) ==> e.kind == ErrorKind::Validation && e.message@ == blank_message("project_id"@),
    {
        let project_id = path_id("project_id", project_id)?;
        let mut path = "/organization/projects/".to_string();
        push_str(&mut path, project_id.as_str());
        push_str(&mut path, "/certificates/deactivate");
        Ok(ApiRequest::new(HttpMethod::Post, path, RequestBody::Json(body)))
    }

}

} // verus!
