//! The marketplace's built-in catalogue of container and stack templates,
//! and what seeding it and installing a template do.
use vstd::prelude::*;
use crate::gateway_auth::{check_permission, Capability};
use crate::resources::{HttpError, NewResourceRow, ResourceConfiguration};

verus! {

/// A catalogue template: its id, name, description, icon, category, the
/// kind of resource it creates, its configuration (JSON text) and whether
/// it is featured as popular.
pub struct TemplateSeed {
    pub template_id: &'static str,
    pub name: &'static str,
    pub description: &'static str,
    pub icon: &'static str,
    pub category: &'static str,
    pub resource_type: &'static str,
    pub configuration: &'static str,
    pub popular: bool,
}

/// The catalogue's template ids, in order.
pub open spec fn template_ids() -> Seq<Seq<char>> {
    seq!["docker-container"@, "docker-stack"@, "wordpress"@, "mern-stack"@, "nginx-postgres"@, "postgresql"@, "mysql"@, "mongodb"@, "redis"@, "nginx"@, "traefik"@, "gitlab"@, "portainer"@, "grafana-prometheus"@, "elk-stack"@]
}

/// Which catalogue templates are featured as popular, in order.
pub open spec fn popular_flags() -> Seq<bool> {
    seq![false, false, true, true, false, true, true, true, true, false, false, false, false, true, false]
}

/// The catalogue's template names, in order.
pub open spec fn template_names() -> Seq<Seq<char>> {
    seq![
        "Docker Container"@,
        "Docker Stack"@,
        "WordPress + MySQL"@,
        "MERN Stack"@,
        "NGINX + PostgreSQL"@,
        "PostgreSQL Database"@,
        "MySQL Database"@,
        "MongoDB Database"@,
        "Redis Cache"@,
        "NGINX Web Server"@,
        "Traefik Reverse Proxy"@,
        "GitLab CE"@,
        "Portainer"@,
        "Grafana + Prometheus"@,
        "ELK Stack"@,
    ]
}

/// The catalogue's template descriptions, in order.
pub open spec fn template_descriptions() -> Seq<Seq<char>> {
    seq![
        "Leerer Docker Container. Wähle dein eigenes Image und konfiguriere es nach deinen Wünschen."@,
        "Leerer Docker Stack. Erstelle einen Multi-Container Stack mit mehreren Services."@,
        "Vollständiger WordPress Stack mit MySQL Datenbank. Perfekt für Blogs, Websites und Content Management."@,
        "MongoDB + Express + React + Node.js Entwicklungsumgebung. Komplett JavaScript Stack."@,
        "Web Server mit PostgreSQL Datenbank. Ideal für Web-Anwendungen."@,
        "Leistungsstarke open-source relationale Datenbank. Perfekt für Production-Workloads."@,
        "Beliebte open-source relationale Datenbank. Weit verbreitet und zuverlässig."@,
        "NoSQL Datenbank für moderne Anwendungen. Flexibles Schema und horizontal skalierbar."@,
        "In-Memory Datenstruktur-Speicher. Perfekt als Cache, Message Broker oder Session Store."@,
        "Hochperformanter Web Server und Reverse Proxy. Ideal für Static Files und Load Balancing."@,
        "Moderner HTTP Reverse Proxy und Load Balancer. Automatische SSL und Service Discovery."@,
        "Komplette DevOps Platform. Git Repository, CI/CD, Issue Tracking und mehr."@,
        "Docker Management UI. Verwalte Container, Images, Volumes und Networks grafisch."@,
        "Monitoring Stack. Metriken sammeln mit Prometheus und visualisieren mit Grafana."@,
        "Elasticsearch + Logstash + Kibana. Zentrale Log-Verwaltung und Analyse."@,
    ]
}

/// The catalogue's template icons, in order.
pub open spec fn template_icons() -> Seq<Seq<char>> {
    seq![
        "🐳"@,
        "📦"@,
        "📝"@,
        "🚀"@,
        "🌐"@,
        "🐘"@,
        "🔷"@,
        "🍃"@,
        "⚡"@,
        "🌐"@,
        "🔀"@,
        "🦊"@,
        "🐳"@,
        "📊"@,
        "📈"@,
    ]
}

/// The catalogue's template categories, in order.
pub open spec fn template_categories() -> Seq<Seq<char>> {
    seq![
        "base"@,
        "base"@,
        "cms"@,
        "development"@,
        "web"@,
        "database"@,
        "database"@,
        "database"@,
        "cache"@,
        "web"@,
        "proxy"@,
        "devops"@,
        "management"@,
        "monitoring"@,
        "logging"@,
    ]
}

/// The kind of resource each catalogue template creates, in order.
pub open spec fn template_resource_types() -> Seq<Seq<char>> {
    seq![
        "docker-container"@,
        "docker-stack"@,
        "docker-stack"@,
        "docker-stack"@,
        "docker-stack"@,
        "docker-stack"@,
        "docker-stack"@,
        "docker-stack"@,
        "docker-stack"@,
        "docker-stack"@,
        "docker-stack"@,
        "docker-stack"@,
        "docker-stack"@,
        "docker-stack"@,
        "docker-stack"@,
    ]
}

/// Each catalogue template's configuration (JSON text), in order.
pub open spec fn template_configurations() -> Seq<Seq<char>> {
    seq![
        "{\"image\":\"nginx:alpine\",\"ports\":[{\"container\":80,\"host\":8080}],\"environment\":{},\"volumes\":[],\"restart_policy\":\"unless-stopped\"}"@,
        "{\"services\":[{\"name\":\"app\",\"image\":\"nginx:alpine\",\"ports\":[{\"container\":80,\"host\":8080}],\"environment\":{},\"volumes\":[],\"restart_policy\":\"unless-stopped\"}]}"@,
        "{\"services\":[{\"name\":\"wordpress\",\"image\":\"wordpress:latest\",\"ports\":[{\"container\":80,\"host\":8080}],\"environment\":{\"WORDPRESS_DB_HOST\":\"db:3306\",\"WORDPRESS_DB_USER\":\"wordpress\",\"WORDPRESS_DB_PASSWORD\":\"wordpress\",\"WORDPRESS_DB_NAME\":\"wordpress\"},\"depends_on\":[\"db\"],\"restart_policy\":\"always\"},{\"name\":\"db\",\"image\":\"mysql:8.0\",\"environment\":{\"MYSQL_DATABASE\":\"wordpress\",\"MYSQL_USER\":\"wordpress\",\"MYSQL_PASSWORD\":\"wordpress\",\"MYSQL_RANDOM_ROOT_PASSWORD\":\"1\"},\"volumes\":[{\"host\":\"./db_data\",\"container\":\"/var/lib/mysql\"}],\"restart_policy\":\"always\"}]}"@,
        "{\"services\":[{\"name\":\"mongodb\",\"image\":\"mongo:7\",\"ports\":[{\"container\":27017,\"host\":27017}],\"volumes\":[{\"host\":\"./mongodb_data\",\"container\":\"/data/db\"}],\"restart_policy\":\"always\"},{\"name\":\"backend\",\"image\":\"node:20-alpine\",\"ports\":[{\"container\":5000,\"host\":5000}],\"environment\":{\"MONGODB_URI\":\"mongodb://mongodb:27017/app\",\"NODE_ENV\":\"development\"},\"depends_on\":[\"mongodb\"],\"restart_policy\":\"always\"},{\"name\":\"frontend\",\"image\":\"node:20-alpine\",\"ports\":[{\"container\":3000,\"host\":3000}],\"environment\":{\"REACT_APP_API_URL\":\"http://localhost:5000\"},\"restart_policy\":\"always\"}]}"@,
        "{\"services\":[{\"name\":\"nginx\",\"image\":\"nginx:alpine\",\"ports\":[{\"container\":80,\"host\":8080}],\"volumes\":[{\"host\":\"./html\",\"container\":\"/usr/share/nginx/html\"}],\"depends_on\":[\"postgres\"],\"restart_policy\":\"always\"},{\"name\":\"postgres\",\"image\":\"postgres:16\",\"environment\":{\"POSTGRES_USER\":\"admin\",\"POSTGRES_PASSWORD\":\"admin\",\"POSTGRES_DB\":\"appdb\"},\"volumes\":[{\"host\":\"./postgres_data\",\"container\":\"/var/lib/postgresql/data\"}],\"restart_policy\":\"always\"}]}"@,
        "{\"services\":[{\"name\":\"postgres\",\"image\":\"postgres:16-alpine\",\"ports\":[{\"container\":5432,\"host\":5432}],\"environment\":{\"POSTGRES_USER\":\"admin\",\"POSTGRES_PASSWORD\":\"changeme\",\"POSTGRES_DB\":\"maindb\"},\"volumes\":[{\"host\":\"./postgres_data\",\"container\":\"/var/lib/postgresql/data\"}],\"restart_policy\":\"always\"}]}"@,
        "{\"services\":[{\"name\":\"mysql\",\"image\":\"mysql:8.0\",\"ports\":[{\"container\":3306,\"host\":3306}],\"environment\":{\"MYSQL_ROOT_PASSWORD\":\"rootpass\",\"MYSQL_DATABASE\":\"appdb\",\"MYSQL_USER\":\"appuser\",\"MYSQL_PASSWORD\":\"apppass\"},\"volumes\":[{\"host\":\"./mysql_data\",\"container\":\"/var/lib/mysql\"}],\"restart_policy\":\"always\"}]}"@,
        "{\"services\":[{\"name\":\"mongodb\",\"image\":\"mongo:7\",\"ports\":[{\"container\":27017,\"host\":27017}],\"environment\":{\"MONGO_INITDB_ROOT_USERNAME\":\"admin\",\"MONGO_INITDB_ROOT_PASSWORD\":\"changeme\"},\"volumes\":[{\"host\":\"./mongodb_data\",\"container\":\"/data/db\"}],\"restart_policy\":\"always\"}]}"@,
        "{\"services\":[{\"name\":\"redis\",\"image\":\"redis:7-alpine\",\"ports\":[{\"container\":6379,\"host\":6379}],\"volumes\":[{\"host\":\"./redis_data\",\"container\":\"/data\"}],\"restart_policy\":\"always\"}]}"@,
        "{\"services\":[{\"name\":\"nginx\",\"image\":\"nginx:alpine\",\"ports\":[{\"container\":80,\"host\":8080}],\"volumes\":[{\"host\":\"./html\",\"container\":\"/usr/share/nginx/html\"},{\"host\":\"./nginx.conf\",\"container\":\"/etc/nginx/nginx.conf\"}],\"restart_policy\":\"always\"}]}"@,
        "{\"services\":[{\"name\":\"traefik\",\"image\":\"traefik:v2.10\",\"ports\":[{\"container\":80,\"host\":80},{\"container\":443,\"host\":443},{\"container\":8080,\"host\":8080}],\"volumes\":[{\"host\":\"/var/run/docker.sock\",\"container\":\"/var/run/docker.sock\"},{\"host\":\"./traefik.yml\",\"container\":\"/etc/traefik/traefik.yml\"}],\"restart_policy\":\"always\"}]}"@,
        "{\"services\":[{\"name\":\"gitlab\",\"image\":\"gitlab/gitlab-ce:latest\",\"ports\":[{\"container\":80,\"host\":8929},{\"container\":443,\"host\":8943},{\"container\":22,\"host\":2222}],\"volumes\":[{\"host\":\"./gitlab/config\",\"container\":\"/etc/gitlab\"},{\"host\":\"./gitlab/logs\",\"container\":\"/var/log/gitlab\"},{\"host\":\"./gitlab/data\",\"container\":\"/var/opt/gitlab\"}],\"restart_policy\":\"always\"}]}"@,
        "{\"services\":[{\"name\":\"portainer\",\"image\":\"portainer/portainer-ce:latest\",\"ports\":[{\"container\":9000,\"host\":9000},{\"container\":8000,\"host\":8000}],\"volumes\":[{\"host\":\"/var/run/docker.sock\",\"container\":\"/var/run/docker.sock\"},{\"host\":\"./portainer_data\",\"container\":\"/data\"}],\"restart_policy\":\"always\"}]}"@,
        "{\"services\":[{\"name\":\"prometheus\",\"image\":\"prom/prometheus:latest\",\"ports\":[{\"container\":9090,\"host\":9090}],\"volumes\":[{\"host\":\"./prometheus.yml\",\"container\":\"/etc/prometheus/prometheus.yml\"},{\"host\":\"./prometheus_data\",\"container\":\"/prometheus\"}],\"restart_policy\":\"always\"},{\"name\":\"grafana\",\"image\":\"grafana/grafana:latest\",\"ports\":[{\"container\":3000,\"host\":3000}],\"environment\":{\"GF_SECURITY_ADMIN_PASSWORD\":\"admin\"},\"volumes\":[{\"host\":\"./grafana_data\",\"container\":\"/var/lib/grafana\"}],\"depends_on\":[\"prometheus\"],\"restart_policy\":\"always\"}]}"@,
        "{\"services\":[{\"name\":\"elasticsearch\",\"image\":\"elasticsearch:8.11.0\",\"ports\":[{\"container\":9200,\"host\":9200}],\"environment\":{\"discovery.type\":\"single-node\",\"xpack.security.enabled\":\"false\"},\"volumes\":[{\"host\":\"./elasticsearch_data\",\"container\":\"/usr/share/elasticsearch/data\"}],\"restart_policy\":\"always\"},{\"name\":\"kibana\",\"image\":\"kibana:8.11.0\",\"ports\":[{\"container\":5601,\"host\":5601}],\"environment\":{\"ELASTICSEARCH_HOSTS\":\"http://elasticsearch:9200\"},\"depends_on\":[\"elasticsearch\"],\"restart_policy\":\"always\"}]}"@,
    ]
}

fn template(
    template_id: &'static str,
    name: &'static str,
    description: &'static str,
    icon: &'static str,
    category: &'static str,
    resource_type: &'static str,
    configuration: &'static str,
    popular: bool,
) -> (r: TemplateSeed)
    ensures
        r.template_id@ == template_id@,
        r.name@ == name@,
        r.description@ == description@,
        r.icon@ == icon@,
        r.category@ == category@,
        r.resource_type@ == resource_type@,
        r.configuration@ == configuration@,
        r.popular == popular,
{
    TemplateSeed { template_id, name, description, icon, category, resource_type, configuration, popular }
}

/// The catalogue: entry `i` has the `i`-th id, name, description, icon,
/// category, resource type, configuration and popular flag of the tables
/// above.
pub fn default_templates() -> (r: Vec<TemplateSeed>)
    ensures
        r@.len() == template_ids().len(),
        forall|i: int| 0 <= i < r@.len() ==> (#[trigger] r@[i]).template_id@ == template_ids()[i] && r@[i].popular
            == popular_flags()[i],
        forall|i: int| 0 <= i < r@.len() ==> (#[trigger] r@[i]).name@ == template_names()[i] && r@[i].description@
            == template_descriptions()[i] && r@[i].icon@ == template_icons()[i],
        forall|i: int| 0 <= i < r@.len() ==> (#[trigger] r@[i]).category@ == template_categories()[i]
            && r@[i].resource_type@ == template_resource_types()[i] && r@[i].configuration@
            == template_configurations()[i],
{
    let v = vec![
        template("docker-container", "Docker Container", "Leerer Docker Container. Wähle dein eigenes Image und konfiguriere es nach deinen Wünschen.", "🐳", "base", "docker-container", "{\"image\":\"nginx:alpine\",\"ports\":[{\"container\":80,\"host\":8080}],\"environment\":{},\"volumes\":[],\"restart_policy\":\"unless-stopped\"}", false),
        template("docker-stack", "Docker Stack", "Leerer Docker Stack. Erstelle einen Multi-Container Stack mit mehreren Services.", "📦", "base", "docker-stack", "{\"services\":[{\"name\":\"app\",\"image\":\"nginx:alpine\",\"ports\":[{\"container\":80,\"host\":8080}],\"environment\":{},\"volumes\":[],\"restart_policy\":\"unless-stopped\"}]}", false),
        template("wordpress", "WordPress + MySQL", "Vollständiger WordPress Stack mit MySQL Datenbank. Perfekt für Blogs, Websites und Content Management.", "📝", "cms", "docker-stack", "{\"services\":[{\"name\":\"wordpress\",\"image\":\"wordpress:latest\",\"ports\":[{\"container\":80,\"host\":8080}],\"environment\":{\"WORDPRESS_DB_HOST\":\"db:3306\",\"WORDPRESS_DB_USER\":\"wordpress\",\"WORDPRESS_DB_PASSWORD\":\"wordpress\",\"WORDPRESS_DB_NAME\":\"wordpress\"},\"depends_on\":[\"db\"],\"restart_policy\":\"always\"},{\"name\":\"db\",\"image\":\"mysql:8.0\",\"environment\":{\"MYSQL_DATABASE\":\"wordpress\",\"MYSQL_USER\":\"wordpress\",\"MYSQL_PASSWORD\":\"wordpress\",\"MYSQL_RANDOM_ROOT_PASSWORD\":\"1\"},\"volumes\":[{\"host\":\"./db_data\",\"container\":\"/var/lib/mysql\"}],\"restart_policy\":\"always\"}]}", true),
        template("mern-stack", "MERN Stack", "MongoDB + Express + React + Node.js Entwicklungsumgebung. Komplett JavaScript Stack.", "🚀", "development", "docker-stack", "{\"services\":[{\"name\":\"mongodb\",\"image\":\"mongo:7\",\"ports\":[{\"container\":27017,\"host\":27017}],\"volumes\":[{\"host\":\"./mongodb_data\",\"container\":\"/data/db\"}],\"restart_policy\":\"always\"},{\"name\":\"backend\",\"image\":\"node:20-alpine\",\"ports\":[{\"container\":5000,\"host\":5000}],\"environment\":{\"MONGODB_URI\":\"mongodb://mongodb:27017/app\",\"NODE_ENV\":\"development\"},\"depends_on\":[\"mongodb\"],\"restart_policy\":\"always\"},{\"name\":\"frontend\",\"image\":\"node:20-alpine\",\"ports\":[{\"container\":3000,\"host\":3000}],\"environment\":{\"REACT_APP_API_URL\":\"http://localhost:5000\"},\"restart_policy\":\"always\"}]}", true),
        template("nginx-postgres", "NGINX + PostgreSQL", "Web Server mit PostgreSQL Datenbank. Ideal für Web-Anwendungen.", "🌐", "web", "docker-stack", "{\"services\":[{\"name\":\"nginx\",\"image\":\"nginx:alpine\",\"ports\":[{\"container\":80,\"host\":8080}],\"volumes\":[{\"host\":\"./html\",\"container\":\"/usr/share/nginx/html\"}],\"depends_on\":[\"postgres\"],\"restart_policy\":\"always\"},{\"name\":\"postgres\",\"image\":\"postgres:16\",\"environment\":{\"POSTGRES_USER\":\"admin\",\"POSTGRES_PASSWORD\":\"admin\",\"POSTGRES_DB\":\"appdb\"},\"volumes\":[{\"host\":\"./postgres_data\",\"container\":\"/var/lib/postgresql/data\"}],\"restart_policy\":\"always\"}]}", false),
        template("postgresql", "PostgreSQL Database", "Leistungsstarke open-source relationale Datenbank. Perfekt für Production-Workloads.", "🐘", "database", "docker-stack", "{\"services\":[{\"name\":\"postgres\",\"image\":\"postgres:16-alpine\",\"ports\":[{\"container\":5432,\"host\":5432}],\"environment\":{\"POSTGRES_USER\":\"admin\",\"POSTGRES_PASSWORD\":\"changeme\",\"POSTGRES_DB\":\"maindb\"},\"volumes\":[{\"host\":\"./postgres_data\",\"container\":\"/var/lib/postgresql/data\"}],\"restart_policy\":\"always\"}]}", true),
        template("mysql", "MySQL Database", "Beliebte open-source relationale Datenbank. Weit verbreitet und zuverlässig.", "🔷", "database", "docker-stack", "{\"services\":[{\"name\":\"mysql\",\"image\":\"mysql:8.0\",\"ports\":[{\"container\":3306,\"host\":3306}],\"environment\":{\"MYSQL_ROOT_PASSWORD\":\"rootpass\",\"MYSQL_DATABASE\":\"appdb\",\"MYSQL_USER\":\"appuser\",\"MYSQL_PASSWORD\":\"apppass\"},\"volumes\":[{\"host\":\"./mysql_data\",\"container\":\"/var/lib/mysql\"}],\"restart_policy\":\"always\"}]}", true),
        template("mongodb", "MongoDB Database", "NoSQL Datenbank für moderne Anwendungen. Flexibles Schema und horizontal skalierbar.", "🍃", "database", "docker-stack", "{\"services\":[{\"name\":\"mongodb\",\"image\":\"mongo:7\",\"ports\":[{\"container\":27017,\"host\":27017}],\"environment\":{\"MONGO_INITDB_ROOT_USERNAME\":\"admin\",\"MONGO_INITDB_ROOT_PASSWORD\":\"changeme\"},\"volumes\":[{\"host\":\"./mongodb_data\",\"container\":\"/data/db\"}],\"restart_policy\":\"always\"}]}", true),
        template("redis", "Redis Cache", "In-Memory Datenstruktur-Speicher. Perfekt als Cache, Message Broker oder Session Store.", "⚡", "cache", "docker-stack", "{\"services\":[{\"name\":\"redis\",\"image\":\"redis:7-alpine\",\"ports\":[{\"container\":6379,\"host\":6379}],\"volumes\":[{\"host\":\"./redis_data\",\"container\":\"/data\"}],\"restart_policy\":\"always\"}]}", true),
        template("nginx", "NGINX Web Server", "Hochperformanter Web Server und Reverse Proxy. Ideal für Static Files und Load Balancing.", "🌐", "web", "docker-stack", "{\"services\":[{\"name\":\"nginx\",\"image\":\"nginx:alpine\",\"ports\":[{\"container\":80,\"host\":8080}],\"volumes\":[{\"host\":\"./html\",\"container\":\"/usr/share/nginx/html\"},{\"host\":\"./nginx.conf\",\"container\":\"/etc/nginx/nginx.conf\"}],\"restart_policy\":\"always\"}]}", false),
        template("traefik", "Traefik Reverse Proxy", "Moderner HTTP Reverse Proxy und Load Balancer. Automatische SSL und Service Discovery.", "🔀", "proxy", "docker-stack", "{\"services\":[{\"name\":\"traefik\",\"image\":\"traefik:v2.10\",\"ports\":[{\"container\":80,\"host\":80},{\"container\":443,\"host\":443},{\"container\":8080,\"host\":8080}],\"volumes\":[{\"host\":\"/var/run/docker.sock\",\"container\":\"/var/run/docker.sock\"},{\"host\":\"./traefik.yml\",\"container\":\"/etc/traefik/traefik.yml\"}],\"restart_policy\":\"always\"}]}", false),
        template("gitlab", "GitLab CE", "Komplette DevOps Platform. Git Repository, CI/CD, Issue Tracking und mehr.", "🦊", "devops", "docker-stack", "{\"services\":[{\"name\":\"gitlab\",\"image\":\"gitlab/gitlab-ce:latest\",\"ports\":[{\"container\":80,\"host\":8929},{\"container\":443,\"host\":8943},{\"container\":22,\"host\":2222}],\"volumes\":[{\"host\":\"./gitlab/config\",\"container\":\"/etc/gitlab\"},{\"host\":\"./gitlab/logs\",\"container\":\"/var/log/gitlab\"},{\"host\":\"./gitlab/data\",\"container\":\"/var/opt/gitlab\"}],\"restart_policy\":\"always\"}]}", false),
        template("portainer", "Portainer", "Docker Management UI. Verwalte Container, Images, Volumes und Networks grafisch.", "🐳", "management", "docker-stack", "{\"services\":[{\"name\":\"portainer\",\"image\":\"portainer/portainer-ce:latest\",\"ports\":[{\"container\":9000,\"host\":9000},{\"container\":8000,\"host\":8000}],\"volumes\":[{\"host\":\"/var/run/docker.sock\",\"container\":\"/var/run/docker.sock\"},{\"host\":\"./portainer_data\",\"container\":\"/data\"}],\"restart_policy\":\"always\"}]}", false),
        template("grafana-prometheus", "Grafana + Prometheus", "Monitoring Stack. Metriken sammeln mit Prometheus und visualisieren mit Grafana.", "📊", "monitoring", "docker-stack", "{\"services\":[{\"name\":\"prometheus\",\"image\":\"prom/prometheus:latest\",\"ports\":[{\"container\":9090,\"host\":9090}],\"volumes\":[{\"host\":\"./prometheus.yml\",\"container\":\"/etc/prometheus/prometheus.yml\"},{\"host\":\"./prometheus_data\",\"container\":\"/prometheus\"}],\"restart_policy\":\"always\"},{\"name\":\"grafana\",\"image\":\"grafana/grafana:latest\",\"ports\":[{\"container\":3000,\"host\":3000}],\"environment\":{\"GF_SECURITY_ADMIN_PASSWORD\":\"admin\"},\"volumes\":[{\"host\":\"./grafana_data\",\"container\":\"/var/lib/grafana\"}],\"depends_on\":[\"prometheus\"],\"restart_policy\":\"always\"}]}", true),
        template("elk-stack", "ELK Stack", "Elasticsearch + Logstash + Kibana. Zentrale Log-Verwaltung und Analyse.", "📈", "logging", "docker-stack", "{\"services\":[{\"name\":\"elasticsearch\",\"image\":\"elasticsearch:8.11.0\",\"ports\":[{\"container\":9200,\"host\":9200}],\"environment\":{\"discovery.type\":\"single-node\",\"xpack.security.enabled\":\"false\"},\"volumes\":[{\"host\":\"./elasticsearch_data\",\"container\":\"/usr/share/elasticsearch/data\"}],\"restart_policy\":\"always\"},{\"name\":\"kibana\",\"image\":\"kibana:8.11.0\",\"ports\":[{\"container\":5601,\"host\":5601}],\"environment\":{\"ELASTICSEARCH_HOSTS\":\"http://elasticsearch:9200\"},\"depends_on\":[\"elasticsearch\"],\"restart_policy\":\"always\"}]}", false)
    ];
    v
}

/// The ids of the catalogue differ from one another, so a template is found
/// again by its id.
pub proof fn lemma_template_ids_distinct()
    ensures
        forall|i: int, j: int| 0 <= i < j < template_ids().len() ==> template_ids()[i] != template_ids()[j],
{
    reveal_strlit("docker-container");
    reveal_strlit("docker-stack");
    reveal_strlit("wordpress");
    reveal_strlit("mern-stack");
    reveal_strlit("nginx-postgres");
    reveal_strlit("postgresql");
    reveal_strlit("mysql");
    reveal_strlit("mongodb");
    reveal_strlit("redis");
    reveal_strlit("nginx");
    reveal_strlit("traefik");
    reveal_strlit("gitlab");
    reveal_strlit("portainer");
    reveal_strlit("grafana-prometheus");
    reveal_strlit("elk-stack");
    let lengths: Seq<nat> = seq![16, 12, 9, 10, 14, 10, 5, 7, 5, 5, 7, 6, 9, 18, 9];
    let initials: Seq<char> = seq!['d', 'd', 'w', 'm', 'n', 'p', 'm', 'm', 'r', 'n', 't', 'g', 'p', 'g', 'e'];
    // No two ids share both their length and their first character.
    assert forall|k: int| 0 <= k < 15 implies #[trigger] template_ids()[k].len() == lengths[k]
        && template_ids()[k][0] == initials[k] by {}
    assert forall|i: int, j: int| 0 <= i < j < 15 implies lengths[i] != lengths[j] || initials[i] != initials[j] by {}
    assert forall|i: int, j: int| 0 <= i < j < template_ids().len() implies template_ids()[i] != template_ids()[j] by {
        assert(template_ids()[i].len() == lengths[i] && template_ids()[i][0] == initials[i]);
        assert(template_ids()[j].len() == lengths[j] && template_ids()[j][0] == initials[j]);
    }
}

/// The indexes, in order, whose flag is not set. A seeding inserts the
/// templates of `unset_indexes(exists)`, where `exists[i]` says whether
/// template `i` is in the database already.
pub open spec fn unset_indexes(exists: Seq<bool>) -> Seq<int>
    decreases exists.len(),
{
    if exists.len() == 0 {
        Seq::empty()
    } else {
        let r = unset_indexes(exists.drop_last());
        if !exists.last() {
            r.push(exists.len() - 1)
        } else {
            r
        }
    }
}

/// The catalogue indexes to insert (see `unset_indexes`).
pub fn templates_to_insert(exists: &Vec<bool>) -> (r: Vec<usize>)
    ensures
        r@.map_values(|i: usize| i as int) == unset_indexes(exists@),
{
    let mut out: Vec<usize> = Vec::new();
    let mut k: usize = 0;
    while k < exists.len()
        invariant
            k <= exists.len(),
            out@.map_values(|i: usize| i as int) == unset_indexes(exists@.take(k as int)),
        decreases exists.len() - k,
    {
        assert(exists@.take(k + 1).drop_last() =~= exists@.take(k as int));
        assert(exists@.take(k + 1).last() == exists@[k as int]);
        if !exists[k] {
            let ghost before = out@;
            out.push(k);
            assert(out@.map_values(|i: usize| i as int) =~= before.map_values(|i: usize| i as int).push(k as int));
        }
        k = k + 1;
    }
    assert(exists@.take(exists@.len() as int) =~= exists@);
    out
}

/// Seeding a catalogue that is all there inserts nothing.
pub proof fn lemma_reseed_inserts_nothing(exists: Seq<bool>)
    requires
        forall|i: int| 0 <= i < exists.len() ==> exists[i],
    ensures
        unset_indexes(exists).len() == 0,
    decreases exists.len(),
{
    if exists.len() > 0 {
        lemma_reseed_inserts_nothing(exists.drop_last());
    }
}

/// How many of the templates are not in the database yet.
pub open spec fn missing_count(exists: Seq<bool>) -> nat
    decreases exists.len(),
{
    if exists.len() == 0 {
        0
    } else {
        missing_count(exists.drop_last()) + if exists.last() {
            0nat
        } else {
            1nat
        }
    }
}

/// Which templates are in the database after a seeding: those that were,
/// and those it inserted.
pub open spec fn seeded(exists: Seq<bool>) -> Seq<bool> {
    Seq::new(exists.len(), |i: int| exists[i] || unset_indexes(exists).contains(i))
}

proof fn lemma_to_insert_shape(exists: Seq<bool>)
    ensures
        unset_indexes(exists).len() == missing_count(exists),
        forall|a: int| 0 <= a < unset_indexes(exists).len() ==> 0 <= #[trigger] unset_indexes(exists)[a] < exists.len(),
        forall|a: int, b: int|
            0 <= a < b < unset_indexes(exists).len() ==> #[trigger] unset_indexes(exists)[a] < #[trigger] unset_indexes(exists)[b],
        forall|i: int| 0 <= i < exists.len() ==> (unset_indexes(exists).contains(i) <==> !exists[i]),
    decreases exists.len(),
{
    if exists.len() > 0 {
        let d = exists.drop_last();
        lemma_to_insert_shape(d);
        let r = unset_indexes(d);
        let n = exists.len() - 1;
        assert forall|i: int| 0 <= i < exists.len() implies (unset_indexes(exists).contains(i) <==> !exists[i]) by {
            if i < n {
                assert(d[i] == exists[i]);
                if !exists.last() {
                    if r.push(n).contains(i) {
                        let k = choose|k: int| 0 <= k < r.push(n).len() && r.push(n)[k] == i;
                        if k < r.len() {
                            assert(r.contains(i));
                        }
                    }
                    if r.contains(i) {
                        let k = choose|k: int| 0 <= k < r.len() && r[k] == i;
                        assert(r.push(n)[k] == i);
                    }
                }
            } else {
                if !exists.last() {
                    assert(r.push(n)[r.len() as int] == n);
                } else {
                    if r.contains(i) {
                        let k = choose|k: int| 0 <= k < r.len() && r[k] == i;
                        assert(r[k] < d.len());
                    }
                }
            }
        }
    }
}

/// A seeding inserts exactly the templates that are missing, each once and
/// in catalogue order, so it creates as many as were missing; afterwards
/// every template is in the database, and a second seeding inserts nothing.
pub proof fn lemma_seeding_inserts_exactly_the_missing(exists: Seq<bool>)
    ensures
        unset_indexes(exists).len() == missing_count(exists),
        forall|i: int| 0 <= i < exists.len() ==> (unset_indexes(exists).contains(i) <==> !exists[i]),
        forall|a: int, b: int|
            0 <= a < b < unset_indexes(exists).len() ==> #[trigger] unset_indexes(exists)[a] < #[trigger] unset_indexes(exists)[b],
        forall|i: int| 0 <= i < exists.len() ==> #[trigger] seeded(exists)[i],
        unset_indexes(seeded(exists)).len() == 0,
{
    lemma_to_insert_shape(exists);
    let s = seeded(exists);
    assert forall|i: int| 0 <= i < exists.len() implies #[trigger] seeded(exists)[i] by {
        if !exists[i] {
            assert(unset_indexes(exists).contains(i));
        }
    }
    lemma_reseed_inserts_nothing(s);
}

/// A template as the seeding stores it.
pub struct TemplateRow {
    pub template_id: &'static str,
    pub name: &'static str,
    pub description: &'static str,
    pub icon: &'static str,
    pub category: &'static str,
    pub resource_type: &'static str,
    pub configuration: &'static str,
    pub popular: bool,
    pub install_count: i32,
}

/// The row a seeding inserts for a catalogue template: the template's
/// fields, and no installs yet.
pub fn new_template_row(t: &TemplateSeed) -> (r: TemplateRow)
    ensures
        r.template_id == t.template_id,
        r.name == t.name,
        r.description == t.description,
        r.icon == t.icon,
        r.category == t.category,
        r.resource_type == t.resource_type,
        r.configuration == t.configuration,
        r.popular == t.popular,
        r.install_count == 0,
{
    TemplateRow {
        template_id: t.template_id,
        name: t.name,
        description: t.description,
        icon: t.icon,
        category: t.category,
        resource_type: t.resource_type,
        configuration: t.configuration,
        popular: t.popular,
        install_count: 0,
    }
}

/// The seeding's report: how many templates it created.
pub fn seed_message(created: u64) -> (r: String)
    ensures
        r@ == "Seeded "@ + crate::numparse::decimal(created as nat) + " templates"@,
{
    String::from_str("Seeded ").concat(crate::numparse::format_u64(created).as_str()).concat(" templates")
}

/// The install count stored after an install: one more than the stored
/// count. `requires` keeps out the count at which the addition overflows.
pub fn next_install_count(stored_count: i32) -> (r: i32)
    requires
        stored_count < i32::MAX,
    ensures
        r == stored_count + 1,
{
    stored_count + 1
}

/// A resource installed from a template starts `pending`, tagged with the
/// template's id and the source `marketplace`.
pub fn installed_resource_tags(template_id: &str) -> (r: (&'static str, String, &'static str))
    ensures
        r.0@ == "pending"@,
        r.1@ == template_id@,
        r.2@ == "marketplace"@,
{
    ("pending", String::from_str(template_id), "marketplace")
}

/// A request to install a template into a resource group under a name.
pub struct InstallTemplateRequest {
    pub template_id: String,
    pub name: String,
    pub resource_group_id: [u8; 16],
}

/// The answer when the template to install is missing (404 `Template not
/// found`) or could not be read (500 `Failed to retrieve template`).
pub fn template_lookup_failure(found: Result<bool, ()>) -> (r: Option<HttpError>)
    ensures
        match found {
            Ok(true) => r is None,
            Ok(false) => r matches Some(e) && e.status == 404 && e.error@ == "Template not found"@,
            Err(()) => r matches Some(e) && e.status == 500 && e.error@ == "Failed to retrieve template"@,
        },
{
    crate::groups::lookup_failure(found, "Template not found", "Failed to retrieve template")
}

/// The answer when the installed resource could not be stored: 500
/// `Failed to install template`.
pub fn install_failure() -> (r: HttpError)
    ensures
        r.status == 500 && r.error@ == "Failed to install template"@,
{
    HttpError { status: 500, error: String::from_str("Failed to install template") }
}

/// The row installing a template stores: the request's name and group, the
/// template's resource type, description and configuration, `pending`, its
/// creator, the tags `template_id` (the request's) and `source`
/// (`marketplace`) in that order, and no container.
pub fn installed_row(
    req: InstallTemplateRequest,
    template_resource_type: String,
    template_description: String,
    template_configuration: serde_json::Value,
    created_by: [u8; 16],
) -> (r: NewResourceRow)
    ensures
        r.name == req.name,
        r.resource_type == template_resource_type,
        r.description == Some(template_description),
        r.resource_group_id == req.resource_group_id,
        r.configuration == Some(ResourceConfiguration::Template(template_configuration)),
        r.status@ == "pending"@,
        r.created_by == Some(created_by),
        r.tags matches Some(t) && t@.len() == 2 && t@[0].0@ == "template_id"@ && t@[0].1@ == req.template_id@
            && t@[1].0@ == "source"@ && t@[1].1@ == "marketplace"@,
        r.container_id is None,
{
    let (status, id, source) = installed_resource_tags(req.template_id.as_str());
    let mut tags: Vec<(String, String)> = Vec::new();
    tags.push((String::from_str("template_id"), id));
    tags.push((String::from_str("source"), String::from_str(source)));
    NewResourceRow {
        name: req.name,
        resource_type: template_resource_type,
        description: Some(template_description),
        resource_group_id: req.resource_group_id,
        configuration: Some(ResourceConfiguration::Template(template_configuration)),
        status: String::from_str(status),
        created_by: Some(created_by),
        tags: Some(tags),
        container_id: None,
    }
}

/// The capability seeding the marketplace asks for: it is for
/// administrators, who manage the system.
pub fn seeding_capability() -> (c: Capability)
    ensures
        c == Capability::ManageSystem,
{
    Capability::ManageSystem
}

/// Whether a user may seed the marketplace: `granted` is whether the user
/// holds `seeding_capability()` in the default organization (`None` where
/// that could not be read). Refused with 403 without it, 500 where the
/// organization or the permission could not be read (see
/// `check_permission`); nothing is seeded then.
pub fn authorize_seeding(default_org_known: bool, granted: Option<bool>) -> (r: Result<(), u16>)
    ensures
        !default_org_known ==> r == Err::<(), u16>(500),
        default_org_known ==> r == match granted {
            None => Err::<(), u16>(500),
            Some(false) => Err::<(), u16>(403),
            Some(true) => Ok::<(), u16>(()),
        },
{
    check_permission(default_org_known, granted)
}

} // verus!
